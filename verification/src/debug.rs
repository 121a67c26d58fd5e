//! How values show in logs.
//!
//! An image shows how many bytes it has in place of the bytes. Handles show what
//! they are known by and leave the rest out.

use crate::control::TrayControl;
use crate::host::{TrayHost, Waker};
use crate::icon::IconImage;
use crate::sni::{ItemActions, PublishedItem};
use crate::text;
use core::fmt::{Debug, DebugStruct, Formatter};
use vstd::prelude::*;
use vstd::string::*;

verus! {

/// `Formatter` of std: where a value is written to. Nothing is claimed of it.
#[verifier::external_type_specification]
#[verifier::external_body]
pub struct ExFormatter<'a>(Formatter<'a>);

/// `DebugStruct` of std: a struct that is being written. Nothing is claimed of
/// it.
#[verifier::external_type_specification]
#[verifier::external_body]
pub struct ExDebugStruct<'a, 'b: 'a>(DebugStruct<'a, 'b>);

/// `fmt::Error` of std: that a value could not be written. Nothing is claimed of
/// it.
#[verifier::external_type_specification]
#[verifier::external_body]
pub struct ExFmtError(core::fmt::Error);

/// `Formatter::write_str` of std writes a text. What has been written cannot be
/// seen in a formatter, so nothing is claimed of it; that it can fail is up to
/// what lies behind the formatter.
pub assume_specification<'a>[ Formatter::<'a>::write_str ](
    f: &mut Formatter<'a>,
    data: &str,
) -> (written: core::fmt::Result)
;

/// `Formatter::debug_struct` of std starts to write a struct of the given name.
/// Nothing is claimed of it.
pub assume_specification<'a, 'b>[ Formatter::<'a>::debug_struct ](
    f: &'b mut Formatter<'a>,
    name: &str,
) -> (started: DebugStruct<'b, 'a>)
;

/// `DebugStruct::field` of std writes a field with its name. Nothing is claimed
/// of it.
pub assume_specification<'a, 'b: 'a, 'c>[ DebugStruct::<'a, 'b>::field ](
    written: &'c mut DebugStruct<'a, 'b>,
    name: &str,
    value: &dyn Debug,
) -> (more: &'c mut DebugStruct<'a, 'b>)
;

/// `DebugStruct::finish` of std ends a struct whose fields are all written.
/// Nothing is claimed of it.
pub assume_specification<'a, 'b: 'a>[ DebugStruct::<'a, 'b>::finish ](
    written: &mut DebugStruct<'a, 'b>,
) -> (ended: core::fmt::Result)
;

/// `DebugStruct::finish_non_exhaustive` of std ends a struct, and shows that not
/// all of its fields are written. Nothing is claimed of it.
pub assume_specification<'a, 'b: 'a>[ DebugStruct::<'a, 'b>::finish_non_exhaustive ](
    written: &mut DebugStruct<'a, 'b>,
) -> (ended: core::fmt::Result)
;

/// A window's id, shown as `0x` and eight hexadecimal digits.
#[derive(Clone, Copy, PartialEq, Eq)]
pub struct WindowId(pub u32);

/// A window's id as it is shown.
pub open spec fn shown_id(window: u32) -> Seq<char> {
    "0x"@ + text::hexadecimal(window as nat, 8)
}

impl WindowId {
    /// The id as it is shown.
    pub fn shown(&self) -> (shown: String)
        ensures
            shown@ == shown_id(self.0),
    {
        let mut shown: String = "0x".to_owned();
        shown.append(text::hexadecimal_text(self.0, 8).as_str());
        shown
    }
}

impl Debug for WindowId {
    fn fmt(&self, f: &mut Formatter<'_>) -> (written: core::fmt::Result) {
        f.write_str(self.shown().as_str())
    }
}

impl Debug for IconImage {
    fn fmt(&self, f: &mut Formatter<'_>) -> (written: core::fmt::Result) {
        let bytes: usize = self.argb32.len();
        f.debug_struct("IconImage")
            .field("width", &self.width)
            .field("height", &self.height)
            .field("bytes", &bytes)
            .finish()
    }
}

impl Debug for TrayControl {
    fn fmt(&self, f: &mut Formatter<'_>) -> (written: core::fmt::Result) {
        f.debug_struct("TrayControl").finish_non_exhaustive()
    }
}

impl Debug for TrayHost {
    fn fmt(&self, f: &mut Formatter<'_>) -> (written: core::fmt::Result) {
        let owner = WindowId(self.waker().target);
        f.debug_struct("TrayHost")
            .field("owner", &owner)
            .field("selection", &self.selection_name())
            .finish_non_exhaustive()
    }
}

impl Debug for Waker {
    fn fmt(&self, f: &mut Formatter<'_>) -> (written: core::fmt::Result) {
        let target = WindowId(self.target);
        f.debug_struct("Waker").field("target", &target).finish_non_exhaustive()
    }
}

impl<A: ItemActions> Debug for PublishedItem<A> {
    fn fmt(&self, f: &mut Formatter<'_>) -> (written: core::fmt::Result) {
        f.debug_struct("PublishedItem").field("name", &self.name()).finish()
    }
}

/// A window's id is shown as `0x` and eight hexadecimal digits that spell it.
pub proof fn law_how_windows_are_shown(window: u32)
    ensures
        shown_id(window).len() == 10,
        shown_id(window)[0] == '0',
        shown_id(window)[1] == 'x',
        text::spelled(shown_id(window).skip(2), 16) == window,
{
    reveal_strlit("0x");
    assert(vstd::arithmetic::power::pow(16, 8) == 4294967296) by {
        reveal_with_fuel(vstd::arithmetic::power::pow, 9);
    }
    text::law_hexadecimal_reads_back(window as nat, 8);
    assert(shown_id(window).skip(2) =~= text::hexadecimal(window as nat, 8));
}

} // verus!
