use vstd::prelude::*;
use vstd::string::StringExecFns;

use crate::config::TracableInfo;
use crate::text::dec_rep;
use crate::text::usize_to_decimal;
use crate::traceable::HasTracableInfo;
use crate::traceable::Tracable;

verus! {

/// A position-tracking input cursor carrying its own trace configuration:
/// the concrete traceable input used by callers.
///
/// `offset` is how far into the original input this cursor stands,
/// `fragment` is the remaining input from that point on, and `extra` is the
/// propagated configuration.
#[derive(Clone, Debug)]
pub struct Span {
    pub offset: usize,
    pub fragment: String,
    pub extra: TracableInfo,
}

impl Span {
    /// A cursor at the start of `fragment`, carrying `extra`.
    pub fn new_extra(fragment: String, extra: TracableInfo) -> (r: Span)
        ensures
            r.offset == 0,
            r.fragment@ == fragment@,
            r.extra == extra,
    {
        Span { offset: 0, fragment, extra }
    }
}

impl HasTracableInfo for Span {
    open spec fn info_spec(&self) -> TracableInfo {
        self.extra
    }

    open spec fn same_payload(&self, other: &Self) -> bool {
        self.offset == other.offset && self.fragment@ == other.fragment@
    }

    fn get_tracable_info(&self) -> (r: TracableInfo) {
        self.extra
    }

    fn set_tracable_info(self, info: TracableInfo) -> (r: Self) {
        Span { extra: info, ..self }
    }
}

impl Tracable for Span {
    /// The offset in decimal, a separator, then the remaining fragment.
    open spec fn format_spec(&self) -> Seq<char> {
        dec_rep(self.offset as nat) + " : "@ + self.fragment@
    }

    open spec fn header_spec(&self) -> Seq<char> {
        "offset : fragment"@
    }

    fn inc_depth(self) -> (r: Self) {
        let info = self.get_tracable_info();
        let d = info.depth;
        let info = info.depth(d + 1);
        self.set_tracable_info(info)
    }

    fn dec_depth(self) -> (r: Self) {
        let info = self.get_tracable_info();
        let d = info.depth;
        let info = info.depth(d - 1);
        self.set_tracable_info(info)
    }

    fn format(&self) -> (r: String) {
        let mut s = usize_to_decimal(self.offset);
        s.append(" : ");
        s.append(self.fragment.as_str());
        s
    }

    fn header(&self) -> (r: String) {
        String::from_str("offset : fragment")
    }
}

} // verus!
