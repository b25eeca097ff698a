//! Metrics of a commit message: subject, body size and wrapping, trailer lines.

use vstd::prelude::*;

use crate::text::{
    chars_eq, chars_of, is_white_space, string_of, to_ascii_lower, white_space, ascii_lower,
};

verus! {

/// Lines longer than this (in characters) count as unwrapped.
pub const WRAP_WIDTH: usize = 80;

/// What a message is made of, line by line, before any counting: the
/// pieces between newlines, with the `\r` of a `\r\n` ending removed.
/// The first component holds the finished lines, the second the line
/// still open at the end of `s`.
pub open spec fn split_state(s: Seq<char>) -> (Seq<Seq<char>>, Seq<char>)
    decreases s.len(),
{
    if s.len() == 0 {
        (Seq::empty(), Seq::empty())
    } else {
        let prev = split_state(s.drop_last());
        if s.last() == '\n' {
            (prev.0.push(strip_cr(prev.1)), Seq::empty())
        } else {
            (prev.0, prev.1.push(s.last()))
        }
    }
}

/// A line ended by `\r\n` loses its `\r`.
pub open spec fn strip_cr(l: Seq<char>) -> Seq<char> {
    if l.len() > 0 && l.last() == '\r' {
        l.drop_last()
    } else {
        l
    }
}

/// The lines of `s`: a final line ending is optional, so it opens no empty line.
pub open spec fn lines(s: Seq<char>) -> Seq<Seq<char>> {
    let st = split_state(s);
    if st.1.len() > 0 {
        st.0.push(st.1)
    } else {
        st.0
    }
}

/// Number of characters before the first `:` of `l` (all of them if there is none).
pub open spec fn colon_index(l: Seq<char>) -> nat
    decreases l.len(),
{
    if l.len() == 0 {
        0
    } else if l[0] == ':' {
        0
    } else {
        1 + colon_index(l.drop_first())
    }
}

pub open spec fn trim_start(s: Seq<char>) -> Seq<char>
    decreases s.len(),
{
    if s.len() > 0 && is_white_space(s[0]) {
        trim_start(s.drop_first())
    } else {
        s
    }
}

pub open spec fn trim_end(s: Seq<char>) -> Seq<char>
    decreases s.len(),
{
    if s.len() > 0 && is_white_space(s.last()) {
        trim_end(s.drop_last())
    } else {
        s
    }
}

/// `s` without leading and trailing whitespace.
pub open spec fn trim(s: Seq<char>) -> Seq<char> {
    trim_end(trim_start(s))
}

/// The known trailer keywords, in small letters.
pub open spec fn is_trailer_key(k: Seq<char>) -> bool {
    ||| k == "acked-by"@
    ||| k == "analyzed-by"@
    ||| k == "approved-by"@
    ||| k == "assisted-by"@
    ||| k == "based-on"@
    ||| k == "bisected-by"@
    ||| k == "caught-by"@
    ||| k == "cc"@
    ||| k == "checked-by"@
    ||| k == "co-developed-by"@
    ||| k == "fixed-by"@
    ||| k == "fixes"@
    ||| k == "found-by"@
    ||| k == "investigated-by"@
    ||| k == "link"@
    ||| k == "rebased-by"@
    ||| k == "reported-by"@
    ||| k == "reviewed-by"@
    ||| k == "sent-by"@
    ||| k == "signed-off-by"@
    ||| k == "sponsored-by"@
    ||| k == "submitted-by"@
    ||| k == "suggested-by"@
    ||| k == "tested-by"@
    ||| k == "triaged-by"@
    ||| k == "written-by"@
}

/// A trailer line: what stands before its first `:`, trimmed and in small
/// ASCII letters, is a known trailer keyword.
pub open spec fn is_trailer_line(l: Seq<char>) -> bool {
    is_trailer_key(trim(l.take(colon_index(l) as int)).map_values(|c: char| ascii_lower(c)))
}

pub open spec fn is_body_line(l: Seq<char>) -> bool {
    !is_trailer_line(l)
}

pub open spec fn is_unwrapped(l: Seq<char>) -> bool {
    l.len() > WRAP_WIDTH
}

/// Total number of characters of the lines `ls`.
pub open spec fn total_chars(ls: Seq<Seq<char>>) -> nat
    decreases ls.len(),
{
    if ls.len() == 0 {
        0
    } else {
        total_chars(ls.drop_last()) + ls.last().len()
    }
}

/// The metrics of a message, as values.
pub ghost struct MessageModel {
    pub subject: Option<Seq<char>>,
    pub break_after_subject: bool,
    pub body_len: nat,
    pub body_lines: nat,
    pub body_unwrapped_lines: nat,
    pub metadata_lines: nat,
}

/// The lines after the subject, without the empty line that may separate
/// subject and body (`break_after_subject` records that one).
pub open spec fn after_subject(ls: Seq<Seq<char>>) -> Seq<Seq<char>> {
    if ls.len() == 0 {
        ls
    } else if ls.len() > 1 && ls[1].len() == 0 {
        ls.skip(2)
    } else {
        ls.drop_first()
    }
}

/// The metrics of the raw message `s`: line 0 is the subject; an empty
/// line 1 separates it from the body; each later line is either a trailer
/// line or a body line.
pub open spec fn parse_message(s: Seq<char>) -> MessageModel {
    let ls = lines(s);
    let rest = after_subject(ls);
    let body = rest.filter(|l: Seq<char>| is_body_line(l));
    MessageModel {
        subject: if ls.len() == 0 {
            None
        } else {
            Some(ls[0])
        },
        break_after_subject: ls.len() > 1 && ls[1].len() == 0,
        body_len: total_chars(body),
        body_lines: body.len(),
        body_unwrapped_lines: body.filter(|l: Seq<char>| is_unwrapped(l)).len(),
        metadata_lines: rest.filter(|l: Seq<char>| is_trailer_line(l)).len(),
    }
}

/// `MessageInfo` holds the metrics of a commit message that scoring needs.
pub struct MessageInfo {
    subject: Option<String>,
    break_after_subject: bool,
    body_len: usize,
    body_lines: usize,
    body_unwrapped_lines: usize,
    metadata_lines: usize,
}

impl MessageInfo {
    #[verifier::type_invariant]
    spec fn wf(&self) -> bool {
        self.body_unwrapped_lines <= self.body_lines
    }
}

impl View for MessageInfo {
    type V = MessageModel;

    closed spec fn view(&self) -> MessageModel {
        MessageModel {
            subject: match self.subject {
                Some(s) => Some(s@),
                None => None,
            },
            break_after_subject: self.break_after_subject,
            body_len: self.body_len as nat,
            body_lines: self.body_lines as nat,
            body_unwrapped_lines: self.body_unwrapped_lines as nat,
            metadata_lines: self.metadata_lines as nat,
        }
    }
}

proof fn lemma_total_chars_append(a: Seq<Seq<char>>, b: Seq<Seq<char>>)
    ensures
        total_chars(a + b) == total_chars(a) + total_chars(b),
    decreases b.len(),
{
    if b.len() > 0 {
        assert((a + b).drop_last() =~= a + b.drop_last());
        lemma_total_chars_append(a, b.drop_last());
    } else {
        assert(a + b =~= a);
    }
}

proof fn lemma_colon_index_bound(l: Seq<char>)
    ensures
        colon_index(l) <= l.len(),
    decreases l.len(),
{
    if l.len() > 0 && l[0] != ':' {
        lemma_colon_index_bound(l.drop_first());
    }
}

/// Splits `cs` into its lines.
fn split_lines(cs: &Vec<char>) -> (r: Vec<Vec<char>>)
    ensures
        r@.len() == lines(cs@).len(),
        forall|i: int| 0 <= i < r@.len() ==> #[trigger] r@[i]@ == lines(cs@)[i],
        total_chars(lines(cs@)) <= cs@.len(),
{
    let mut done: Vec<Vec<char>> = Vec::new();
    let mut cur: Vec<char> = Vec::new();
    let ghost mut done_v: Seq<Seq<char>> = Seq::empty();
    let mut i: usize = 0;
    while i < cs.len()
        invariant
            i <= cs@.len(),
            split_state(cs@.take(i as int)) == (done_v, cur@),
            done@.len() == done_v.len(),
            forall|j: int| 0 <= j < done@.len() ==> #[trigger] done@[j]@ == done_v[j],
            total_chars(done_v) + cur@.len() <= i,
        decreases cs@.len() - i,
    {
        let c = cs[i];
        assert(cs@.take(i + 1 as int).drop_last() =~= cs@.take(i as int));
        if c == '\n' {
            let n = cur.len();
            if n > 0 && cur[n - 1] == '\r' {
                cur.pop();
            }
            assert(cur@ == strip_cr(split_state(cs@.take(i as int)).1)) by {
                if n > 0 && split_state(cs@.take(i as int)).1.last() == '\r' {
                    assert(cur@ =~= split_state(cs@.take(i as int)).1.drop_last());
                }
            }
            proof {
                assert(total_chars(done_v.push(cur@)) == total_chars(done_v) + cur@.len()) by {
                    assert(done_v.push(cur@).drop_last() =~= done_v);
                }
                done_v = done_v.push(cur@);
            }
            done.push(cur);
            cur = Vec::new();
        } else {
            cur.push(c);
        }
        i = i + 1;
    }
    assert(cs@.take(i as int) =~= cs@);
    if cur.len() > 0 {
        proof {
            assert(done_v.push(cur@).drop_last() =~= done_v);
        }
        done.push(cur);
    }
    done
}

/// Number of characters of `l` before its first `:`.
fn find_colon(l: &Vec<char>) -> (r: usize)
    ensures
        r == colon_index(l@),
{
    let mut i: usize = 0;
    assert(l@.skip(0) =~= l@);
    while i < l.len() && l[i] != ':'
        invariant
            i <= l@.len(),
            colon_index(l@) == i + colon_index(l@.skip(i as int)),
        decreases l@.len() - i,
    {
        assert(l@.skip(i as int).drop_first() =~= l@.skip(i + 1 as int));
        i = i + 1;
    }
    i
}

/// The trimmed key of a line, in small ASCII letters.
fn line_key(l: &Vec<char>) -> (r: Vec<char>)
    ensures
        r@ == trim(l@.take(colon_index(l@) as int)).map_values(|c: char| ascii_lower(c)),
{
    let end = find_colon(l);
    let ghost key = l@.take(end as int);
    proof {
        lemma_colon_index_bound(l@);
        assert(key.skip(0) =~= key);
    }
    let mut start: usize = 0;
    while start < end && white_space(l[start])
        invariant
            start <= end <= l@.len(),
            key == l@.take(end as int),
            trim_start(key) == trim_start(key.skip(start as int)),
        decreases end - start,
    {
        assert(key.skip(start as int).drop_first() =~= key.skip(start + 1 as int));
        start = start + 1;
    }
    let ghost front = key.skip(start as int);
    assert(trim_start(front) == front);
    assert(front.take(end - start) =~= front);
    let mut stop: usize = end;
    while stop > start && white_space(l[stop - 1])
        invariant
            start <= stop <= end <= l@.len(),
            key == l@.take(end as int),
            front == key.skip(start as int),
            trim_end(front) == trim_end(front.take(stop - start)),
        decreases stop - start,
    {
        assert(front.take(stop - start).drop_last() =~= front.take(stop - 1 - start));
        stop = stop - 1;
    }
    let ghost trimmed = front.take(stop - start);
    assert(trim_end(trimmed) == trimmed);
    let mut r: Vec<char> = Vec::new();
    let mut i: usize = start;
    while i < stop
        invariant
            start <= i <= stop <= end <= l@.len(),
            trimmed == key.skip(start as int).take(stop - start),
            key == l@.take(end as int),
            r@ == trimmed.take(i - start).map_values(|c: char| ascii_lower(c)),
        decreases stop - i,
    {
        r.push(to_ascii_lower(l[i]));
        assert(trimmed.take(i + 1 - start) =~= trimmed.take(i - start).push(l@[i as int]));
        i = i + 1;
        assert(r@ =~= trimmed.take(i - start).map_values(|c: char| ascii_lower(c)));
    }
    assert(trimmed.take(stop - start) =~= trimmed);
    r
}

fn is_trailer_key_chars(k: &Vec<char>) -> (r: bool)
    ensures
        r == is_trailer_key(k@),
{
    let k = k.as_slice();
    chars_eq(k, "acked-by") || chars_eq(k, "analyzed-by") || chars_eq(k, "approved-by")
        || chars_eq(k, "assisted-by") || chars_eq(k, "based-on") || chars_eq(k, "bisected-by")
        || chars_eq(k, "caught-by") || chars_eq(k, "cc") || chars_eq(k, "checked-by")
        || chars_eq(k, "co-developed-by") || chars_eq(k, "fixed-by") || chars_eq(k, "fixes")
        || chars_eq(k, "found-by") || chars_eq(k, "investigated-by") || chars_eq(k, "link")
        || chars_eq(k, "rebased-by") || chars_eq(k, "reported-by") || chars_eq(k, "reviewed-by")
        || chars_eq(k, "sent-by") || chars_eq(k, "signed-off-by") || chars_eq(k, "sponsored-by")
        || chars_eq(k, "submitted-by") || chars_eq(k, "suggested-by") || chars_eq(k, "tested-by")
        || chars_eq(k, "triaged-by") || chars_eq(k, "written-by")
}

/// Whether `l` is a trailer line (`Signed-off-by: ...` and the like).
fn trailer_line(l: &Vec<char>) -> (r: bool)
    ensures
        r == is_trailer_line(l@),
{
    let key = line_key(l);
    is_trailer_key_chars(&key)
}

impl MessageInfo {
    /// Measures the raw message text. Line 0 is the subject: the source of
    /// the text has already stripped leading and trailing empty lines.
    pub fn new(raw_message: &str) -> (r: MessageInfo)
        ensures
            r@ == parse_message(raw_message@),
    {
        let cs = chars_of(raw_message);
        let ls = split_lines(&cs);
        let ghost lv = lines(cs@);
        let n = ls.len();
        if n == 0 {
            proof {
                assert(after_subject(lv).filter(|l: Seq<char>| is_body_line(l)) =~= Seq::empty())
                    by {
                    reveal(Seq::filter);
                }
                assert(after_subject(lv).filter(|l: Seq<char>| is_trailer_line(l))
                    =~= Seq::empty()) by {
                    reveal(Seq::filter);
                }
                reveal(Seq::filter);
            }
            return MessageInfo {
                subject: None,
                break_after_subject: false,
                body_len: 0,
                body_lines: 0,
                body_unwrapped_lines: 0,
                metadata_lines: 0,
            };
        }
        let subject = string_of(ls[0].as_slice());
        let break_after_subject = n > 1 && ls[1].len() == 0;
        let mut body_len: usize = 0;
        let mut body_lines: usize = 0;
        let mut body_unwrapped_lines: usize = 0;
        let mut metadata_lines: usize = 0;
        // The empty line after the subject only separates it from the body.
        let first: usize = if break_after_subject {
            2
        } else {
            1
        };
        let ghost rest = lv.skip(first as int);
        proof {
            lemma_total_chars_append(lv.take(first as int), rest);
            assert(lv.take(first as int) + rest =~= lv);
            assert(after_subject(lv) =~= rest);
        }
        let cs_len = cs.len();
        let mut i: usize = first;
        while i < n
            invariant
                1 <= first <= i <= n,
                n == lv.len(),
                n == ls@.len(),
                rest == lv.skip(first as int),
                forall|j: int| 0 <= j < n ==> #[trigger] ls@[j]@ == lv[j],
                total_chars(rest) <= cs@.len(),
                cs@.len() == cs_len,
                body_len == total_chars(rest.take(i - first).filter(|l: Seq<char>| is_body_line(l))),
                body_lines == rest.take(i - first).filter(|l: Seq<char>| is_body_line(l)).len(),
                body_unwrapped_lines == rest.take(i - first).filter(
                    |l: Seq<char>| is_body_line(l),
                ).filter(|l: Seq<char>| is_unwrapped(l)).len(),
                metadata_lines == rest.take(i - first).filter(|l: Seq<char>| is_trailer_line(l)).len(),
                body_lines + metadata_lines == i - first,
                body_unwrapped_lines <= body_lines,
                body_len <= total_chars(rest.take(i - first)),
            decreases n - i,
        {
            let ghost before = rest.take(i - first);
            let ghost after = rest.take(i + 1 - first);
            let line = &ls[i];
            proof {
                assert(after.drop_last() =~= before);
                assert(after.last() == line@);
                reveal(Seq::filter);
                lemma_total_chars_append(after, rest.skip(i + 1 - first));
                assert(after + rest.skip(i + 1 - first) =~= rest);
                assert(total_chars(after) == total_chars(before) + line@.len());
                assert(total_chars(after) <= cs@.len());
            }
            if trailer_line(line) {
                metadata_lines = metadata_lines + 1;
            } else {
                let len = line.len();
                proof {
                    let b = before.filter(|l: Seq<char>| is_body_line(l));
                    assert(b.push(line@).drop_last() =~= b);
                }
                body_len = body_len + len;
                body_lines = body_lines + 1;
                if len > WRAP_WIDTH {
                    body_unwrapped_lines = body_unwrapped_lines + 1;
                }
            }
            i = i + 1;
        }
        proof {
            assert(rest.take(n - first) =~= rest);
        }
        MessageInfo {
            subject: Some(subject),
            break_after_subject,
            body_len,
            body_lines,
            body_unwrapped_lines,
            metadata_lines,
        }
    }

    /// The first line of the message, if there is one.
    pub fn subject(&self) -> (r: Option<&str>)
        ensures
            match r {
                Some(s) => self@.subject == Some(s@),
                None => self@.subject is None,
            },
    {
        match &self.subject {
            Some(s) => Some(s.as_str()),
            None => None,
        }
    }

    pub fn break_after_subject(&self) -> (r: bool)
        ensures
            r == self@.break_after_subject,
    {
        self.break_after_subject
    }

    pub fn body_len(&self) -> (r: usize)
        ensures
            r == self@.body_len,
    {
        self.body_len
    }

    pub fn body_lines(&self) -> (r: usize)
        ensures
            r == self@.body_lines,
    {
        self.body_lines
    }

    pub fn body_unwrapped_lines(&self) -> (r: usize)
        ensures
            r == self@.body_unwrapped_lines,
            r <= self@.body_lines,
    {
        proof {
            use_type_invariant(self);
        }
        self.body_unwrapped_lines
    }

    pub fn metadata_lines(&self) -> (r: usize)
        ensures
            r == self@.metadata_lines,
    {
        self.metadata_lines
    }
}

impl Default for MessageInfo {
    /// The metrics of an empty message.
    fn default() -> (r: MessageInfo)
        ensures
            r@ == parse_message(Seq::empty()),
    {
        proof {
            let ls = lines(Seq::<char>::empty());
            assert(ls =~= Seq::empty());
            reveal(Seq::filter);
        }
        MessageInfo {
            subject: None,
            break_after_subject: false,
            body_len: 0,
            body_lines: 0,
            body_unwrapped_lines: 0,
            metadata_lines: 0,
        }
    }
}

} // verus!
