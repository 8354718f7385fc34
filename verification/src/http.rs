//! The head of an HTTP request, read line by line up to the first empty
//! line, and the answer the server gives to every request.

use vstd::prelude::*;

verus! {

/// The texts of a list of lines.
pub open spec fn texts(lines: Seq<String>) -> Seq<Seq<char>> {
    lines.map_values(|s: String| s@)
}

/// Whether some line of `lines` is empty.
pub open spec fn has_empty_line(lines: Seq<Seq<char>>) -> bool {
    exists|i: int| 0 <= i < lines.len() && (#[trigger] lines[i]).len() == 0
}

/// Whether `head` is the longest prefix of `lines` that holds no empty line.
pub open spec fn is_head_of(head: Seq<Seq<char>>, lines: Seq<Seq<char>>) -> bool {
    &&& head.len() <= lines.len()
    &&& head == lines.take(head.len() as int)
    &&& forall|i: int| 0 <= i < head.len() ==> (#[trigger] lines[i]).len() > 0
    &&& head.len() == lines.len() || lines[head.len() as int].len() == 0
}

/// What reading one more line does to the lines kept so far and the flag
/// that says whether the empty line that ends the head was seen: after
/// that line nothing changes; an empty line sets the flag; any other line
/// is kept.
pub open spec fn after_line(state: (Seq<Seq<char>>, bool), line: Seq<char>) -> (
    Seq<Seq<char>>,
    bool,
) {
    if state.1 {
        state
    } else if line.len() == 0 {
        (state.0, true)
    } else {
        (state.0.push(line), false)
    }
}

/// The state after reading `lines` one by one from the start.
pub open spec fn after_lines(lines: Seq<Seq<char>>) -> (Seq<Seq<char>>, bool)
    decreases lines.len(),
{
    if lines.len() == 0 {
        (Seq::empty(), false)
    } else {
        after_line(after_lines(lines.drop_last()), lines.last())
    }
}

/// Reading lines one at a time keeps exactly the longest prefix with no
/// empty line, and the flag says whether an empty line came.
pub proof fn lemma_after_lines_is_head(lines: Seq<Seq<char>>)
    ensures
        is_head_of(after_lines(lines).0, lines),
        after_lines(lines).1 == has_empty_line(lines),
    decreases lines.len(),
{
    if lines.len() == 0 {
        assert(after_lines(lines).0 =~= lines.take(0));
    } else {
        let prev = lines.drop_last();
        lemma_after_lines_is_head(prev);
        let st = after_lines(prev);
        let n = lines.len() - 1;
        assert(forall|i: int| 0 <= i < prev.len() ==> prev[i] == lines[i]);
        assert(prev.take(st.0.len() as int) =~= lines.take(st.0.len() as int));
        if st.1 {
            let w = choose|i: int| 0 <= i < prev.len() && (#[trigger] prev[i]).len() == 0;
            assert(st.0.len() < prev.len()) by {
                if st.0.len() == prev.len() {
                    assert(lines[w].len() > 0);
                }
            }
            assert(lines[st.0.len() as int] == prev[st.0.len() as int]);
            assert(lines[w].len() == 0);
        } else {
            if lines.last().len() == 0 {
                assert(lines[n].len() == 0);
                assert(st.0.len() == prev.len());
            } else {
                assert(st.0.len() == prev.len());
                assert(st.0.push(lines.last()) =~= lines);
                assert(lines.take(lines.len() as int) =~= lines);
                assert forall|i: int| 0 <= i < lines.len() implies (#[trigger] lines[i]).len()
                    != 0 by {
                    if i < n {
                        assert(lines[i] == prev[i]);
                    }
                }
            }
        }
    }
}

/// The lines of a request head read so far, and whether the empty line
/// that ends it has come.
pub struct RequestHead {
    lines: Vec<String>,
    complete: bool,
}

impl View for RequestHead {
    type V = (Seq<Seq<char>>, bool);

    closed spec fn view(&self) -> (Seq<Seq<char>>, bool) {
        (texts(self.lines@), self.complete)
    }
}

impl RequestHead {
    /// A head with no line read.
    pub fn new() -> (h: RequestHead)
        ensures
            h@ == after_lines(Seq::empty()),
    {
        let h = RequestHead { lines: Vec::new(), complete: false };
        assert(texts(h.lines@) =~= Seq::<Seq<char>>::empty());
        h
    }

    /// Takes the next line of the request. Returns whether more lines of
    /// the head are wanted, that is, whether the empty line has not come.
    pub fn push_line(&mut self, line: String) -> (more: bool)
        ensures
            final(self)@ == after_line(old(self)@, line@),
            more == !final(self)@.1,
    {
        if self.complete {
            false
        } else if line.as_str().is_empty() {
            self.complete = true;
            false
        } else {
            let ghost before = self.lines@;
            self.lines.push(line);
            assert(texts(self.lines@) =~= texts(before).push(line@));
            true
        }
    }

    /// The lines kept so far.
    pub fn lines(&self) -> (r: &Vec<String>)
        ensures
            texts(r@) == self@.0,
    {
        &self.lines
    }

    /// Whether the empty line that ends the head has come.
    pub fn is_complete(&self) -> (r: bool)
        ensures
            r == self@.1,
    {
        self.complete
    }
}

/// The head of a request whose lines are all at hand: the lines before the
/// first empty line, or all of them where none is empty.
pub fn request_head(lines: Vec<String>) -> (head: Vec<String>)
    ensures
        is_head_of(texts(head@), texts(lines@)),
{
    let ghost all = texts(lines@);
    let mut h = RequestHead::new();
    let n = lines.len();
    let mut i: usize = 0;
    while i < n
        invariant
            n == lines.len(),
            i <= n,
            all == texts(lines@),
            h@ == after_lines(all.take(i as int)),
        decreases n - i,
    {
        let line = lines[i].clone();
        h.push_line(line);
        assert(all.take(i as int + 1).drop_last() =~= all.take(i as int));
        i = i + 1;
    }
    assert(all.take(n as int) =~= all);
    proof {
        lemma_after_lines_is_head(all);
    }
    h.lines
}

/// The answer sent to every request: a bare `200 OK` status line followed
/// by the empty line that ends the head.
pub fn response() -> (r: &'static str)
    ensures
        r@ == "HTTP/1.1 200 OK\r\n\r\n"@,
{
    "HTTP/1.1 200 OK\r\n\r\n"
}

} // verus!
