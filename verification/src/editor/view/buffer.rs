//! The line buffer: the text as a sequence of lines, and how a source text is
//! cut into lines.

use vstd::prelude::*;

verus! {

/// `String::push` of std appends one character at the end of the string and
/// changes nothing else.
pub assume_specification[ String::push ](string: &mut String, ch: char)
    ensures
        final(string)@ == old(string)@.push(ch),
;

/// The characters of each string, in the same order.
pub open spec fn line_views(lines: Seq<String>) -> Seq<Seq<char>> {
    lines.map_values(|line: String| line@)
}

/// Whether `text` holds no line feed.
pub open spec fn has_no_line_feed(text: Seq<char>) -> bool {
    forall|i: int| 0 <= i < text.len() ==> text[i] != '\n'
}

/// The index of the first line feed in `text`, or the length of `text` where
/// it holds none.
pub open spec fn first_line_feed(text: Seq<char>) -> int
    decreases text.len(),
{
    if text.len() == 0 || text[0] == '\n' {
        0
    } else {
        1 + first_line_feed(text.drop_first())
    }
}

/// `line` without the carriage return at its end, if it has one.
pub open spec fn without_carriage_return(line: Seq<char>) -> Seq<char> {
    if line.len() > 0 && line.last() == '\r' {
        line.drop_last()
    } else {
        line
    }
}

/// The lines of `text`. A line ends at a line feed; the line feed, and a
/// carriage return directly before it, belong to no line. What follows the
/// last line feed is a line of its own unless it is empty.
pub open spec fn split_lines(text: Seq<char>) -> Seq<Seq<char>>
    decreases text.len(),
{
    let end = first_line_feed(text);
    if text.len() == 0 {
        Seq::empty()
    } else if 0 <= end < text.len() {
        seq![without_carriage_return(text.subrange(0, end))] + split_lines(
            text.subrange(end + 1, text.len() as int),
        )
    } else {
        seq![text]
    }
}

/// The text in which each of `lines` is followed by a line ending: a line
/// feed, with a carriage return before it where the line's flag in
/// `carriage_returns` is set.
pub open spec fn join_lines(lines: Seq<Seq<char>>, carriage_returns: Seq<bool>) -> Seq<char>
    decreases lines.len(),
{
    if lines.len() == 0 {
        Seq::empty()
    } else {
        lines[0] + line_ending(carriage_returns[0]) + join_lines(
            lines.drop_first(),
            carriage_returns.drop_first(),
        )
    }
}

/// Whether `text` ends in a carriage return.
pub open spec fn ends_in_carriage_return(text: Seq<char>) -> bool {
    text.len() > 0 && text.last() == '\r'
}

/// Whether `text` holds two carriage returns and a line feed in a row.
pub open spec fn holds_doubled_carriage_return(text: Seq<char>) -> bool {
    exists|i: int|
        0 <= i && i + 2 < text.len() && #[trigger] text[i] == '\r' && text[i + 1] == '\r' && text[i
            + 2] == '\n'
}

/// A line ending: a line feed, with a carriage return before it where
/// `carriage_return` is set.
pub open spec fn line_ending(carriage_return: bool) -> Seq<char> {
    if carriage_return {
        seq!['\r', '\n']
    } else {
        seq!['\n']
    }
}

/// The first line feed of `text` lies within `text` or at its end, it is a line
/// feed where it lies within, and no line feed comes before it.
pub proof fn lemma_first_line_feed(text: Seq<char>)
    ensures
        0 <= first_line_feed(text) <= text.len(),
        first_line_feed(text) < text.len() ==> text[first_line_feed(text)] == '\n',
        has_no_line_feed(text.subrange(0, first_line_feed(text))),
    decreases text.len(),
{
    if text.len() == 0 || text[0] == '\n' {
    } else {
        lemma_first_line_feed(text.drop_first());
        let end = first_line_feed(text);
        assert forall|i: int| 0 <= i < end implies text.subrange(0, end)[i] != '\n' by {
            if i > 0 {
                assert(text.drop_first().subrange(0, end - 1)[i - 1] == text[i]);
            }
        }
    }
}

/// Behind a head without line feed, the first line feed is that of the tail.
pub proof fn lemma_first_line_feed_behind(head: Seq<char>, tail: Seq<char>)
    requires
        has_no_line_feed(head),
    ensures
        first_line_feed(head + tail) == head.len() + first_line_feed(tail),
    decreases head.len(),
{
    if head.len() == 0 {
        assert(head + tail =~= tail);
    } else {
        assert((head + tail)[0] == head[0]);
        assert((head + tail).drop_first() =~= head.drop_first() + tail);
        lemma_first_line_feed_behind(head.drop_first(), tail);
    }
}

/// A text that starts with a line and its line feed splits into that line,
/// without a carriage return at its end, and the lines of the rest.
pub proof fn lemma_split_at_line_feed(head: Seq<char>, tail: Seq<char>)
    requires
        has_no_line_feed(head),
    ensures
        split_lines(head + seq!['\n'] + tail) == seq![without_carriage_return(head)] + split_lines(
            tail,
        ),
{
    let text = head + seq!['\n'] + tail;
    assert(text =~= head + (seq!['\n'] + tail));
    lemma_first_line_feed_behind(head, seq!['\n'] + tail);
    assert(first_line_feed(seq!['\n'] + tail) == 0);
    assert(text.subrange(0, head.len() as int) =~= head);
    assert(text.subrange(head.len() as int + 1, text.len() as int) =~= tail);
}

/// A text without line feed is one line, or none where it is empty.
pub proof fn lemma_split_without_line_feed(text: Seq<char>)
    requires
        has_no_line_feed(text),
    ensures
        split_lines(text) == if text.len() == 0 {
            Seq::<Seq<char>>::empty()
        } else {
            seq![text]
        },
{
    lemma_first_line_feed_behind(text, Seq::empty());
    assert(text + Seq::<char>::empty() =~= text);
}

/// Cutting a text into lines undoes joining them. Take lines without line
/// feed, let each be followed by a line ending of its own choice, and let a
/// last stretch of text without line feed follow: the lines of that text are
/// the given lines in their order, each exactly as it was, and behind them the
/// last stretch where it is not empty. A line that ends in a carriage return
/// and is followed by a bare line feed is left out, since that carriage return
/// would read as part of the line ending.
pub proof fn lemma_split_of_joined_lines(
    lines: Seq<Seq<char>>,
    carriage_returns: Seq<bool>,
    last: Seq<char>,
)
    requires
        carriage_returns.len() == lines.len(),
        forall|i: int| 0 <= i < lines.len() ==> has_no_line_feed(#[trigger] lines[i]),
        forall|i: int|
            0 <= i < lines.len() && !carriage_returns[i] ==> !ends_in_carriage_return(
                #[trigger] lines[i],
            ),
        has_no_line_feed(last),
    ensures
        split_lines(join_lines(lines, carriage_returns) + last) == if last.len() == 0 {
            lines
        } else {
            lines.push(last)
        },
    decreases lines.len(),
{
    if lines.len() == 0 {
        assert(join_lines(lines, carriage_returns) + last =~= last);
        lemma_split_without_line_feed(last);
        assert(lines =~= Seq::<Seq<char>>::empty());
        assert(lines.push(last) =~= seq![last]);
    } else {
        let rest = lines.drop_first();
        let rest_returns = carriage_returns.drop_first();
        let tail = join_lines(rest, rest_returns) + last;
        let head = if carriage_returns[0] {
            lines[0].push('\r')
        } else {
            lines[0]
        };
        assert(has_no_line_feed(lines[0]));
        assert(carriage_returns[0] || !ends_in_carriage_return(lines[0]));
        assert(without_carriage_return(head) =~= lines[0]);
        assert(join_lines(lines, carriage_returns) + last =~= head + seq!['\n'] + tail);
        lemma_split_at_line_feed(head, tail);
        assert forall|i: int| 0 <= i < rest.len() implies has_no_line_feed(#[trigger] rest[i]) by {
            assert(rest[i] == lines[i + 1]);
        }
        assert forall|i: int| 0 <= i < rest.len() && !rest_returns[i] implies !ends_in_carriage_return(
            #[trigger] rest[i],
        ) by {
            assert(rest[i] == lines[i + 1]);
            assert(rest_returns[i] == carriage_returns[i + 1]);
        }
        lemma_split_of_joined_lines(rest, rest_returns, last);
        assert(seq![lines[0]] + rest =~= lines);
        assert(seq![lines[0]] + rest.push(last) =~= lines.push(last));
    }
}

/// A line of a text ends in a carriage return only where the text itself ends
/// in one, with no line feed behind it, or holds two carriage returns and a
/// line feed in a row; and in both cases some line does. In every other text
/// no line keeps a character of a line ending.
pub proof fn lemma_line_ends_in_carriage_return(text: Seq<char>)
    ensures
        (exists|i: int|
            0 <= i < split_lines(text).len() && ends_in_carriage_return(
                #[trigger] split_lines(text)[i],
            )) <==> ends_in_carriage_return(text) || holds_doubled_carriage_return(text),
    decreases text.len(),
{
    let end = first_line_feed(text);
    let lines = split_lines(text);
    lemma_first_line_feed(text);
    if text.len() == 0 {
    } else if 0 <= end < text.len() {
        let head = text.subrange(0, end);
        let tail = text.subrange(end + 1, text.len() as int);
        let later = split_lines(tail);
        lemma_line_ends_in_carriage_return(tail);
        assert(lines[0] == without_carriage_return(head));
        assert forall|i: int| 0 < i < lines.len() implies lines[i] == later[i - 1] by {}
        let doubled_here = head.len() >= 2 && head[end - 1] == '\r' && head[end - 2] == '\r';
        assert(ends_in_carriage_return(lines[0]) <==> doubled_here);
        assert(ends_in_carriage_return(tail) <==> ends_in_carriage_return(text)) by {
            if tail.len() > 0 {
                assert(tail.last() == text.last());
            }
        }
        if exists|i: int| 0 <= i < lines.len() && ends_in_carriage_return(#[trigger] lines[i]) {
            let i = choose|i: int| 0 <= i < lines.len() && ends_in_carriage_return(#[trigger] lines[i]);
            if i == 0 {
                assert(text[end - 2] == head[end - 2]);
                assert(text[end - 2] == '\r' && text[end - 2 + 1] == '\r' && text[end - 2 + 2]
                    == '\n');
            } else {
                assert(ends_in_carriage_return(later[i - 1]));
                if holds_doubled_carriage_return(tail) {
                    let j = choose|j: int|
                        0 <= j && j + 2 < tail.len() && #[trigger] tail[j] == '\r' && tail[j + 1]
                            == '\r' && tail[j + 2] == '\n';
                    let k = j + end + 1;
                    assert(text[k] == tail[j] && text[k + 1] == tail[j + 1] && text[k + 2]
                        == tail[j + 2]);
                }
            }
        }
        if ends_in_carriage_return(text) || holds_doubled_carriage_return(text) {
            if doubled_here {
                assert(ends_in_carriage_return(lines[0]));
            } else if ends_in_carriage_return(tail) || holds_doubled_carriage_return(tail) {
                let i = choose|i: int|
                    0 <= i < later.len() && ends_in_carriage_return(#[trigger] later[i]);
                assert(lines[i + 1] == later[i]);
                assert(ends_in_carriage_return(lines[i + 1]));
            } else {
                let k = choose|k: int|
                    0 <= k && k + 2 < text.len() && #[trigger] text[k] == '\r' && text[k + 1]
                        == '\r' && text[k + 2] == '\n';
                if k + 2 < end {
                    assert(head[k + 2] == text[k + 2]);
                } else if k + 2 == end {
                    assert(head[end - 1] == text[k + 1] && head[end - 2] == text[k]);
                } else {
                    let j = k - end - 1;
                    assert(k != end && k + 1 != end);
                    assert(tail[j] == text[k] && tail[j + 1] == text[k + 1] && tail[j + 2]
                        == text[k + 2]);
                }
            }
        }
    } else {
        assert(lines =~= seq![text]);
        if holds_doubled_carriage_return(text) {
            let k = choose|k: int|
                0 <= k && k + 2 < text.len() && #[trigger] text[k] == '\r' && text[k + 1] == '\r'
                    && text[k + 2] == '\n';
            assert(text.subrange(0, end)[k + 2] == '\n');
        }
        if ends_in_carriage_return(text) {
            assert(ends_in_carriage_return(lines[0]));
        }
    }
}

/// No line of a text holds a line feed.
pub proof fn lemma_split_lines_hold_no_line_feed(text: Seq<char>)
    ensures
        forall|i: int|
            0 <= i < split_lines(text).len() ==> has_no_line_feed(#[trigger] split_lines(text)[i]),
    decreases text.len(),
{
    let end = first_line_feed(text);
    lemma_first_line_feed(text);
    if text.len() == 0 {
    } else if 0 <= end < text.len() {
        let first = without_carriage_return(text.subrange(0, end));
        let tail = text.subrange(end + 1, text.len() as int);
        lemma_split_lines_hold_no_line_feed(tail);
        assert(has_no_line_feed(first));
        assert forall|i: int| 0 <= i < split_lines(text).len() implies has_no_line_feed(
            #[trigger] split_lines(text)[i],
        ) by {
            if i > 0 {
                assert(split_lines(text)[i] == split_lines(tail)[i - 1]);
            }
        }
    } else {
        assert(text.subrange(0, end) =~= text);
    }
}

/// The line buffer: the lines of the text, the first row first.
pub struct Buffer {
    pub lines: Vec<String>,
}

impl View for Buffer {
    type V = Seq<Seq<char>>;

    open spec fn view(&self) -> Seq<Seq<char>> {
        line_views(self.lines@)
    }
}

impl Default for Buffer {
    /// The buffer without lines.
    fn default() -> (buffer: Buffer)
        ensures
            buffer@ == Seq::<Seq<char>>::empty(),
    {
        let buffer = Buffer { lines: Vec::new() };
        assert(buffer@ =~= Seq::<Seq<char>>::empty());
        buffer
    }
}

impl Buffer {
    /// The buffer that holds the lines of `source`.
    pub fn load(source: &str) -> (buffer: Buffer)
        ensures
            buffer@ == split_lines(source@),
    {
        let mut lines: Vec<String> = Vec::new();
        let mut line = String::new();
        // Set while a carriage return has been read that is not yet part of
        // `line`: it is dropped if a line feed follows, and kept otherwise.
        let mut carriage_return = false;
        proof {
            assert(line@ + source@.skip(0) =~= source@);
            assert(line_views(lines@) + split_lines(source@) =~= split_lines(source@));
        }
        for c in it: source.chars()
            invariant
                it.seq() == source@,
                has_no_line_feed(line@),
                !carriage_return ==> line@.len() == 0 || line@.last() != '\r',
                split_lines(source@) == line_views(lines@) + split_lines(
                    open_line(line@, carriage_return) + source@.skip(it.index() as int),
                ),
        {
            let ghost index = it.index() as int;
            let ghost open = open_line(line@, carriage_return);
            let ghost rest = source@.skip(index + 1);
            assert(source@.skip(index) =~= seq![c] + rest);
            if c == '\n' {
                proof {
                    assert(open + source@.skip(index) =~= open + seq!['\n'] + rest);
                    lemma_split_at_line_feed(open, rest);
                    assert(without_carriage_return(open) =~= line@);
                    assert(line_views(lines@.push(line)) =~= line_views(lines@).push(line@));
                    assert(Seq::<char>::empty() + rest =~= rest);
                }
                lines.push(line);
                line = String::new();
                carriage_return = false;
            } else {
                if carriage_return {
                    line.push('\r');
                }
                if c == '\r' {
                    carriage_return = true;
                } else {
                    line.push(c);
                    carriage_return = false;
                }
                assert(open_line(line@, carriage_return) =~= open.push(c));
                assert(open.push(c) + rest =~= open + source@.skip(index));
            }
        }
        let ghost open = open_line(line@, carriage_return);
        if carriage_return {
            line.push('\r');
        }
        proof {
            assert(line@ =~= open);
            assert(source@.skip(source@.len() as int) =~= Seq::<char>::empty());
            assert(open + Seq::<char>::empty() =~= open);
            lemma_split_without_line_feed(open);
        }
        if !line.as_str().is_empty() {
            proof {
                assert(line_views(lines@.push(line)) =~= line_views(lines@).push(line@));
            }
            lines.push(line);
        }
        Buffer { lines }
    }

    /// Whether the buffer holds no line at all.
    pub fn is_empty(&self) -> (empty: bool)
        ensures
            empty == (self@.len() == 0),
    {
        self.lines.is_empty()
    }
}

/// The line that is being read: what is stored of it, and behind that the
/// carriage return that is still held back.
spec fn open_line(line: Seq<char>, carriage_return: bool) -> Seq<char> {
    if carriage_return {
        line.push('\r')
    } else {
        line
    }
}

} // verus!
