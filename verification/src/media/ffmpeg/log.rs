//! Capturing the codec library's error lines.
//!
//! The library reports why an encoder refused to open only through its log, so
//! the most recent error lines are kept until they are asked for.

use vstd::prelude::*;

use crate::text::{texts, trim_end, without_trailing_space};

verus! {

/// The level of error lines; larger numbers are less severe.
pub const LOG_ERROR: i32 = 16;

/// Most lines retained; this stops a chatty driver from growing the buffer
/// without bound.
pub const MAX_LINES: usize = 32;

/// Error lines captured since recording began.
#[derive(Debug)]
pub struct LogCapture {
    /// The lines, oldest first.
    pub lines: Vec<String>,
    /// Whether lines are recorded at all.
    pub capturing: bool,
}

/// The text of a line that is worth reporting: an error with something in it,
/// without the white space at its end.
pub open spec fn reported(level: i32, line: Seq<char>) -> Option<Seq<char>> {
    if level <= LOG_ERROR && without_trailing_space(line).len() > 0 {
        Some(without_trailing_space(line))
    } else {
        None
    }
}

/// The lines after another one; where there is no room for it, the oldest goes.
pub open spec fn with_line(lines: Seq<Seq<char>>, capturing: bool, text: Option<Seq<char>>) -> Seq<
    Seq<char>,
> {
    if capturing && text is Some {
        if lines.len() < MAX_LINES {
            lines.push(text->0)
        } else {
            lines.subrange(1, lines.len() as int).push(text->0)
        }
    } else {
        lines
    }
}

impl LogCapture {
    /// Nothing captured, and not recording.
    pub fn new() -> (r: Self)
        ensures
            texts(r.lines@) == Seq::<Seq<char>>::empty(),
            !r.capturing,
    {
        let r = LogCapture { lines: Vec::new(), capturing: false };
        assert(texts(r.lines@) =~= Seq::<Seq<char>>::empty());
        r
    }

    /// Start recording error lines, discarding anything recorded earlier.
    pub fn begin_capture(&mut self)
        ensures
            texts(final(self).lines@) == Seq::<Seq<char>>::empty(),
            final(self).capturing,
    {
        self.lines = Vec::new();
        self.capturing = true;
        assert(texts(self.lines@) =~= Seq::<Seq<char>>::empty());
    }

    /// Stop recording and return the lines captured, oldest first.
    pub fn take_errors(&mut self) -> (r: Vec<String>)
        ensures
            r@ == old(self).lines@,
            texts(final(self).lines@) == Seq::<Seq<char>>::empty(),
            !final(self).capturing,
    {
        self.capturing = false;
        let mut taken: Vec<String> = Vec::new();
        taken.append(&mut self.lines);
        assert(taken@ =~= old(self).lines@);
        assert(texts(self.lines@) =~= Seq::<Seq<char>>::empty());
        taken
    }

    /// Take a line from the library, and give the text to forward, where there
    /// is any.
    pub fn record(&mut self, level: i32, line: &str) -> (r: Option<String>)
        ensures
            match reported(level, line@) {
                Some(text) => r is Some && r->0@ == text,
                None => r is None,
            },
            texts(final(self).lines@) == with_line(
                texts(old(self).lines@),
                old(self).capturing,
                reported(level, line@),
            ),
            final(self).capturing == old(self).capturing,
    {
        if level > LOG_ERROR {
            return None;
        }
        let text = trim_end(line);
        if text.as_str().is_empty() {
            return None;
        }
        if self.capturing {
            let ghost before = self.lines@;
            if self.lines.len() >= MAX_LINES {
                self.lines.remove(0);
                assert(texts(self.lines@) =~= texts(before).subrange(1, before.len() as int));
            }
            let ghost kept = self.lines@;
            self.lines.push(text.clone());
            assert(texts(self.lines@) =~= texts(kept).push(text@));
        }
        Some(text)
    }
}

/// However much is logged, a bounded number of lines is kept; the newest is the
/// last of them, and only the oldest goes for it.
pub proof fn captured_lines_are_bounded(lines: Seq<Seq<char>>, text: Seq<char>)
    requires
        lines.len() <= MAX_LINES,
    ensures
        with_line(lines, true, Some(text)).len() <= MAX_LINES,
        with_line(lines, true, Some(text)).last() == text,
        with_line(lines, true, Some(text)).drop_last() == if lines.len() < MAX_LINES {
            lines
        } else {
            lines.subrange(1, lines.len() as int)
        },
{
    assert(with_line(lines, true, Some(text)).drop_last() =~= if lines.len() < MAX_LINES {
        lines
    } else {
        lines.subrange(1, lines.len() as int)
    });
}

/// The lines kept of all that were recorded since recording began.
pub open spec fn kept_of(all: Seq<Seq<char>>) -> Seq<Seq<char>>
    decreases all.len(),
{
    if all.len() == 0 {
        Seq::empty()
    } else {
        with_line(kept_of(all.drop_last()), true, Some(all.last()))
    }
}

/// Of all the lines that were recorded, the most recent ones are kept, oldest
/// first.
pub proof fn the_most_recent_lines_are_kept(all: Seq<Seq<char>>)
    ensures
        kept_of(all) == if all.len() <= MAX_LINES {
            all
        } else {
            all.subrange(all.len() - MAX_LINES, all.len() as int)
        },
    decreases all.len(),
{
    if all.len() > 0 {
        the_most_recent_lines_are_kept(all.drop_last());
        assert(all.drop_last().push(all.last()) =~= all);
        if all.len() > MAX_LINES {
            assert(kept_of(all) =~= all.subrange(all.len() - MAX_LINES, all.len() as int));
        }
    } else {
        assert(all =~= Seq::empty());
    }
}

/// Errors and what is worse are reported, without the blanks at their end;
/// blank lines and what is less severe are not, and nothing is kept unless it
/// is asked for.
pub proof fn only_errors_are_reported(
    level: i32,
    line: Seq<char>,
    lines: Seq<Seq<char>>,
    text: Option<Seq<char>>,
)
    ensures
        level <= 16 && without_trailing_space(line).len() > 0 ==> reported(level, line) == Some(
            without_trailing_space(line),
        ),
        level > 16 ==> reported(level, line) is None,
        without_trailing_space(line).len() == 0 ==> reported(level, line) is None,
        with_line(lines, false, text) == lines,
        with_line(lines, true, None) == lines,
        lines.len() < 32 && text is Some ==> with_line(lines, true, text) == lines.push(text->0),
        lines.len() == 32 && text is Some ==> with_line(lines, true, text) == lines.subrange(
            1,
            32,
        ).push(text->0),
{
}

} // verus!
