use vstd::prelude::*;

verus! {

/// Immutable trace configuration, copied on every propagation.
///
/// `depth` is the current recursion depth (0 at the outermost call);
/// `forward` and `backward` independently enable recording of entries and
/// exits; the two widths are display column widths for the sequence-number
/// and parser-name columns.
#[derive(Clone, Copy, Debug, PartialEq, Eq, Structural)]
pub struct TracableInfo {
    pub depth: usize,
    pub forward: bool,
    pub backward: bool,
    pub count_width: usize,
    pub parser_width: usize,
}

impl TracableInfo {
    /// The default configuration: depth 0, both directions disabled,
    /// a sequence-number column of 10 and a parser-name column of 96.
    pub fn new() -> (r: Self)
        ensures
            r == (TracableInfo {
                depth: 0,
                forward: false,
                backward: false,
                count_width: 10,
                parser_width: 96,
            }),
    {
        TracableInfo {
            depth: 0,
            forward: false,
            backward: false,
            count_width: 10,
            parser_width: 96,
        }
    }

    /// Returns a copy with `depth` replaced and every other field unchanged.
    pub fn depth(self, x: usize) -> (r: Self)
        ensures
            r == (TracableInfo { depth: x, ..self }),
    {
        TracableInfo { depth: x, ..self }
    }

    /// Returns a copy with `forward` replaced and every other field unchanged.
    pub fn forward(self, x: bool) -> (r: Self)
        ensures
            r == (TracableInfo { forward: x, ..self }),
    {
        TracableInfo { forward: x, ..self }
    }

    /// Returns a copy with `backward` replaced and every other field unchanged.
    pub fn backward(self, x: bool) -> (r: Self)
        ensures
            r == (TracableInfo { backward: x, ..self }),
    {
        TracableInfo { backward: x, ..self }
    }

    /// Returns a copy with `count_width` replaced and every other field unchanged.
    pub fn count_width(self, x: usize) -> (r: Self)
        ensures
            r == (TracableInfo { count_width: x, ..self }),
    {
        TracableInfo { count_width: x, ..self }
    }

    /// Returns a copy with `parser_width` replaced and every other field unchanged.
    pub fn parser_width(self, x: usize) -> (r: Self)
        ensures
            r == (TracableInfo { parser_width: x, ..self }),
    {
        TracableInfo { parser_width: x, ..self }
    }
}

impl Default for TracableInfo {
    fn default() -> (r: Self)
        ensures
            r == (TracableInfo {
                depth: 0,
                forward: false,
                backward: false,
                count_width: 10,
                parser_width: 96,
            }),
    {
        TracableInfo::new()
    }
}

} // verus!
