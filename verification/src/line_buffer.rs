//! The scan-line buffer between the renderer and the display.
//!
//! The renderer draws one line at a time, into a buffer that is as wide as
//! the display and is used again for every line. What it has drawn is then
//! handed on as one write of a pixel row to the display. The buffer moves
//! pixels and never looks into them, so it takes the pixel type of the
//! renderer as it is.

use std::ops::Range;
use vstd::prelude::*;
use vstd::slice::slice_subrange;

verus! {

/// One write to the display: a window given by two corners, and the pixels
/// to put into it from its first corner on.
#[derive(Debug)]
pub struct LineWrite<'a, P> {
    /// The first column of the window.
    pub sx: u16,
    /// The first row of the window.
    pub sy: u16,
    /// The column at which the window ends: the end of the range of
    /// columns, as the renderer gave it.
    pub ex: u16,
    /// The last row of the window.
    pub ey: u16,
    /// The pixels, in the order of their columns.
    pub pixels: &'a [P],
}

/// What a draw buffer holds.
pub struct DrawBufferView<P> {
    /// The width of the display, and of the buffer, in pixels.
    pub width: nat,
    /// The height of the display in lines.
    pub height: nat,
    /// The scan line as it was last drawn.
    pub pixels: Seq<P>,
}

impl<P> DrawBufferView<P> {
    /// The buffer is as wide as the display.
    pub open spec fn wf(self) -> bool {
        self.pixels.len() == self.width
    }

    /// Whether the display has the line `line` and the columns of `range`.
    pub open spec fn holds(self, line: usize, range: Range<usize>) -> bool {
        &&& line < self.height
        &&& range.start <= range.end <= self.width
    }

    /// The pixels in the columns of `range`.
    pub open spec fn part(self, range: Range<usize>) -> Seq<P> {
        self.pixels.subrange(range.start as int, range.end as int)
    }
}

/// The scan-line buffer of a display. Its width is fixed when it is made.
#[derive(Debug)]
pub struct DrawBuffer<P> {
    buffer: Vec<P>,
    width: u16,
    height: u16,
}

impl<P> View for DrawBuffer<P> {
    type V = DrawBufferView<P>;

    closed spec fn view(&self) -> DrawBufferView<P> {
        DrawBufferView {
            width: self.width as nat,
            height: self.height as nat,
            pixels: self.buffer@,
        }
    }
}

impl<P: Copy> DrawBuffer<P> {
    /// The buffer for a display of `width` by `height` pixels, with every
    /// pixel at `fill`.
    pub fn new(width: u16, height: u16, fill: P) -> (buffer: DrawBuffer<P>)
        ensures
            buffer@.wf(),
            buffer@.width == width,
            buffer@.height == height,
            buffer@.pixels == Seq::new(width as nat, |i: int| fill),
    {
        let mut buffer: Vec<P> = Vec::with_capacity(width as usize);
        let mut filled: u16 = 0;
        while filled < width
            invariant
                filled <= width,
                buffer@ == Seq::new(filled as nat, |i: int| fill),
            decreases width - filled,
        {
            buffer.push(fill);
            filled += 1;
            assert(buffer@ =~= Seq::new(filled as nat, |i: int| fill));
        }
        DrawBuffer { buffer, width, height }
    }

    /// The width of the display in pixels.
    pub fn width(&self) -> (width: u16)
        ensures
            width == self@.width,
    {
        self.width
    }

    /// The height of the display in lines.
    pub fn height(&self) -> (height: u16)
        ensures
            height == self@.height,
    {
        self.height
    }

    /// Whether the display has the line `line` and the columns of `range`,
    /// so that the line can be processed.
    pub fn accepts(&self, line: usize, range: &Range<usize>) -> (ok: bool)
        ensures
            ok == self@.holds(line, *range),
    {
        line < self.height as usize && range.start <= range.end && range.end
            <= self.width as usize
    }

    /// Has one line drawn and hands it on.
    ///
    /// `render_fn` is called once, on the part of the buffer that holds the
    /// columns of `range`. Whatever it leaves there are the pixels of the
    /// write that is returned, which is one row tall, on line `line`. Its
    /// corners are the ends of `range` as they came. The rest of the buffer
    /// stays as it was, and the buffer keeps its width.
    ///
    /// The second demand on `render_fn` is one that every function meets,
    /// as no function can change the length of a slice that it is lent.
    pub fn process_line<'a, F: FnOnce(&mut [P])>(
        &'a mut self,
        line: usize,
        range: Range<usize>,
        render_fn: F,
    ) -> (write: LineWrite<'a, P>)
        requires
            old(self)@.wf(),
            old(self)@.holds(line, range),
            forall|part: &mut [P]|
                part@ == old(self)@.part(range) ==> call_requires(render_fn, (part,)),
            forall|part: &mut [P]|
                part@ == old(self)@.part(range) && call_ensures(render_fn, (part,), ())
                    ==> final(part)@.len() == part@.len(),
        ensures
            final(self)@.wf(),
            final(self)@.width == old(self)@.width,
            final(self)@.height == old(self)@.height,
            forall|i: int|
                0 <= i < old(self)@.width && !(range.start <= i < range.end)
                    ==> final(self)@.pixels[i] == old(self)@.pixels[i],
            exists|part: &mut [P]|
                #![trigger call_ensures(render_fn, (part,), ())]
                part@ == old(self)@.part(range) && final(part)@ == final(self)@.part(range)
                    && call_ensures(render_fn, (part,), ()),
            write.sx == range.start,
            write.sy == line,
            write.ex == range.end,
            write.ey == line,
            write.pixels@ == final(self)@.part(range),
    {
        let ghost before = self.buffer@;
        let start: usize = range.start;
        let end: usize = range.end;
        let whole = self.buffer.as_mut_slice();
        let (head, rest) = whole.split_at_mut(start);
        let (part, tail) = rest.split_at_mut(end - start);
        assert(part@ =~= before.subrange(start as int, end as int));
        render_fn(part);
        assert(self.buffer@.len() == before.len());
        assert(self.buffer@.subrange(0, start as int) =~= before.subrange(0, start as int));
        assert(self.buffer@.subrange(end as int, before.len() as int) =~= before.subrange(
            end as int,
            before.len() as int,
        ));
        assert forall|i: int| 0 <= i < before.len() && !(start <= i < end) implies self.buffer@[i]
            == before[i] by {
            if i < start {
                assert(self.buffer@.subrange(0, start as int)[i] == before.subrange(
                    0,
                    start as int,
                )[i]);
            } else {
                assert(self.buffer@.subrange(end as int, before.len() as int)[i - end]
                    == before.subrange(end as int, before.len() as int)[i - end]);
            }
        }
        let all = self.buffer.as_slice();
        LineWrite {
            sx: start as u16,
            sy: line as u16,
            ex: end as u16,
            ey: line as u16,
            pixels: slice_subrange(all, start, end),
        }
    }
}

} // verus!
