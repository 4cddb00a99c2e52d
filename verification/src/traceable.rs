use vstd::prelude::*;

use crate::config::TracableInfo;

verus! {

/// The configuration `info` with its depth one greater and every other
/// field unchanged: what entering a traced call does to the configuration.
pub open spec fn inc_info(info: TracableInfo) -> TracableInfo {
    TracableInfo { depth: (info.depth + 1) as usize, ..info }
}

/// The configuration `info` with its depth one smaller and every other
/// field unchanged: what a successful, backward-logged return does.
pub open spec fn dec_info(info: TracableInfo) -> TracableInfo {
    TracableInfo { depth: (info.depth - 1) as usize, ..info }
}

/// Law: entering a call and then returning from it restores the
/// configuration exactly — depth follows a pure stack discipline, so a
/// successful traced call hands its caller back the depth it started with.
pub proof fn lemma_depth_stack_discipline(info: TracableInfo)
    requires
        info.depth < usize::MAX,
    ensures
        dec_info(inc_info(info)) == info,
{
}

/// A value that carries a `TracableInfo` and can replace it.
///
/// The configuration travels by value inside the input itself, so every
/// nested parsing call receives its configuration for free.
pub trait HasTracableInfo: Sized {
    /// The configuration currently carried by the value.
    spec fn info_spec(&self) -> TracableInfo;

    /// Whether `other` agrees with `self` on everything except the
    /// carried configuration.
    spec fn same_payload(&self, other: &Self) -> bool;

    /// Reads the carried configuration.
    fn get_tracable_info(&self) -> (r: TracableInfo)
        ensures
            r == self.info_spec(),
    ;

    /// Replaces the carried configuration, leaving all other state unchanged.
    fn set_tracable_info(self, info: TracableInfo) -> (r: Self)
        ensures
            r.info_spec() == info,
            self.same_payload(&r),
    ;
}

/// A traceable parsing input: it carries a configuration, can adjust its
/// own nesting depth, and can render its position as one line of text.
pub trait Tracable: HasTracableInfo {
    /// One-line rendering of the current position (offset and remaining
    /// fragment): the text a trace line shows for this input.
    spec fn format_spec(&self) -> Seq<char>;

    /// Column headers matching the layout of `format_spec`.
    spec fn header_spec(&self) -> Seq<char>;

    /// Returns a copy whose depth is one greater; nothing else changes.
    fn inc_depth(self) -> (r: Self)
        requires
            self.info_spec().depth < usize::MAX,
        ensures
            r.info_spec() == inc_info(self.info_spec()),
            self.same_payload(&r),
    ;

    /// Returns a copy whose depth is one smaller; nothing else changes.
    fn dec_depth(self) -> (r: Self)
        requires
            self.info_spec().depth > 0,
        ensures
            r.info_spec() == dec_info(self.info_spec()),
            self.same_payload(&r),
    ;

    /// Renders the current position as one line of text.
    fn format(&self) -> (r: String)
        ensures
            r@ == self.format_spec(),
    ;

    /// Renders the column headers for `format`'s layout.
    fn header(&self) -> (r: String)
        ensures
            r@ == self.header_spec(),
    ;
}

impl HasTracableInfo for TracableInfo {
    open spec fn info_spec(&self) -> TracableInfo {
        *self
    }

    open spec fn same_payload(&self, other: &Self) -> bool {
        true
    }

    fn get_tracable_info(&self) -> (r: TracableInfo) {
        *self
    }

    fn set_tracable_info(self, info: TracableInfo) -> (r: Self) {
        info
    }
}

} // verus!
