//! Interface to Rofi's API.
use core::marker::PhantomData;
use vstd::prelude::*;
use vstd::string::StringSliceAdditionalSpecFns;

use crate::string::{has_no_nul_char, reserve_fits, reserved_capacity, String};

verus! {

/// The Rofi API,
/// controlled by a lifetime
/// to be only accessible while Rofi is running.
///
/// It holds the display name of the current mode
/// (the text displayed before the colon).
pub struct Api<'rofi> {
    display_name: Option<String>,
    lifetime: PhantomData<&'rofi ()>,
}

/// The capacity of an optional string, zero where there is none.
pub open spec fn optional_capacity(name: Option<String>) -> int {
    match name {
        Some(s) => s.spec_capacity(),
        None => 0,
    }
}

impl<'rofi> Api<'rofi> {
    /// The current display name.
    pub closed spec fn name(&self) -> Option<String> {
        self.display_name
    }

    /// The display name, if there is one, is a well-formed string.
    pub open spec fn wf(&self) -> bool {
        self.name() matches Some(s) ==> s.wf()
    }

    /// An API without a display name.
    pub fn new() -> (api: Self)
        ensures
            api.wf(),
            api.name() is None,
    {
        Api { display_name: None, lifetime: PhantomData }
    }

    /// Get the display name of the current mode (the text displayed before the colon).
    ///
    /// Returns [`None`] if there isn't one,
    /// in which case Rofi shows the mode name instead.
    pub fn display_name(&self) -> (name: Option<&str>)
        requires
            self.wf(),
        ensures
            name is Some <==> self.name() is Some,
            name matches Some(s) ==> s.spec_bytes() == self.name()->0@,
    {
        match &self.display_name {
            Some(s) => Some(s.as_str()),
            None => None,
        }
    }

    fn change_display_name(&mut self, display_name: Option<String>) -> (previous: Option<String>)
        ensures
            previous == old(self).name(),
            final(self).name() == display_name,
    {
        let mut slot = display_name;
        core::mem::swap(&mut self.display_name, &mut slot);
        slot
    }

    /// Take the current display name,
    /// leaving [`None`] in its place
    /// and returning the previous display name.
    /// This will cause Rofi to display the mode name instead.
    ///
    /// Returns [`None`] if there was no previous display name.
    pub fn take_display_name(&mut self) -> (previous: Option<String>)
        ensures
            previous == old(self).name(),
            final(self).name() is None,
            final(self).wf(),
    {
        self.change_display_name(None)
    }

    /// Replace the current display name,
    /// returning the previous one.
    ///
    /// Returns [`None`] if there was no previous display name.
    pub fn replace_display_name(&mut self, display_name: String) -> (previous: Option<String>)
        requires
            display_name.wf(),
        ensures
            previous == old(self).name(),
            final(self).name() == Some(display_name),
            final(self).wf(),
    {
        self.change_display_name(Some(display_name))
    }

    /// Set the display name of the current mode to the given text,
    /// reusing the buffer of the previous display name if there was one.
    ///
    /// The text must not contain nul bytes.
    pub fn set_display_name(&mut self, display_name: &str)
        requires
            old(self).wf(),
            has_no_nul_char(display_name@),
            display_name.spec_bytes().len() == 0 || reserve_fits(
                0,
                optional_capacity(old(self).name()),
                display_name.spec_bytes().len() as int,
            ),
        ensures
            final(self).wf(),
            final(self).name() is Some,
            final(self).name()->0@ == display_name.spec_bytes(),
            final(self).name()->0.spec_capacity() == if display_name.spec_bytes().len() == 0 {
                optional_capacity(old(self).name())
            } else {
                reserved_capacity(
                    0,
                    optional_capacity(old(self).name()),
                    display_name.spec_bytes().len() as int,
                )
            },
    {
        let mut buf = match self.take_display_name() {
            Some(buf) => buf,
            None => String::new(),
        };
        buf.clear();
        buf.push_str(display_name);
        proof {
            assert(Seq::<u8>::empty() + display_name.spec_bytes() =~= display_name.spec_bytes());
        }
        self.replace_display_name(buf);
    }
}

/// The display name read back after setting it is the text that was set,
/// character for character: `requires` holds what `set_display_name` ensures of the
/// API and what `display_name` then ensures of its result.
pub proof fn lemma_display_name_reads_back(api: Api, text: &str, read: Option<&str>)
    requires
        api.wf(),
        api.name() is Some,
        api.name()->0@ == text.spec_bytes(),
        read is Some <==> api.name() is Some,
        read matches Some(r) ==> r.spec_bytes() == api.name()->0@,
    ensures
        read matches Some(r) && r@ == text@,
{
    let r = read->0;
    vstd::utf8::encode_utf8_decode_utf8(r@);
    vstd::utf8::encode_utf8_decode_utf8(text@);
}

/// Taking the display name right after replacing it gives back the string that
/// replaced it and leaves no display name: `requires` holds what
/// `replace_display_name` and then `take_display_name` ensure.
pub proof fn lemma_take_after_replace(
    display_name: String,
    replaced: Api,
    taken: Option<String>,
    after: Api,
)
    requires
        display_name.wf(),
        replaced.name() == Some(display_name),
        taken == replaced.name(),
        after.name() is None,
    ensures
        taken == Some(display_name),
        after.wf(),
{
}

/// A request sent to the icon fetcher, identified by the fetcher's request id.
#[derive(Debug)]
pub struct IconRequest {
    uid: u32,
}

impl IconRequest {
    /// The fetcher's id of this request.
    pub closed spec fn spec_uid(&self) -> u32 {
        self.uid
    }

    /// The request with the fetcher's id `uid`.
    pub fn from_uid(uid: u32) -> (request: Self)
        ensures
            request.spec_uid() == uid,
    {
        IconRequest { uid }
    }

    /// The fetcher's id of this request.
    pub fn uid(&self) -> (uid: u32)
        ensures
            uid == self.spec_uid(),
    {
        self.uid
    }
}

} // verus!
