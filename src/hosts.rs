//! Parsing of the hosts override file: one entry per line that is neither
//! blank nor a comment and holds at least an address and a domain.
use crate::telemetry::HostsEntry;
use crate::text::chars_of;
use vstd::prelude::*;

verus! {

/// Unicode White_Space, the set that `char::is_whitespace` tests.
pub open spec fn is_space(c: char) -> bool {
    let v = c as u32;
    (9 <= v && v <= 13) || v == 32 || v == 0x85 || v == 0xA0 || v == 0x1680 || (0x2000 <= v && v
        <= 0x200A) || v == 0x2028 || v == 0x2029 || v == 0x202F || v == 0x205F || v == 0x3000
}

fn is_space_exec(c: char) -> (r: bool)
    ensures
        r == is_space(c),
{
    let v = c as u32;
    (9 <= v && v <= 13) || v == 32 || v == 0x85 || v == 0xA0 || v == 0x1680 || (0x2000 <= v && v
        <= 0x200A) || v == 0x2028 || v == 0x2029 || v == 0x202F || v == 0x205F || v == 0x3000
}

/// Relies on `String::push`: appends one character.
#[verifier::external_body]
fn push_char(s: &mut String, c: char)
    ensures
        final(s)@ == old(s)@.push(c),
{
    s.push(c)
}

/// The state of a left-to-right split of a line at whitespace: the words
/// completed, the word being read, and whether one is being read.
pub struct WordScan {
    pub done: Seq<Seq<char>>,
    pub current: Seq<char>,
    pub inside: bool,
}

pub open spec fn word_scan(s: Seq<char>) -> WordScan
    decreases s.len(),
{
    if s.len() == 0 {
        WordScan { done: Seq::empty(), current: Seq::empty(), inside: false }
    } else {
        let st = word_scan(s.drop_last());
        let c = s.last();
        if is_space(c) {
            if st.inside {
                WordScan { done: st.done.push(st.current), current: Seq::empty(), inside: false }
            } else {
                st
            }
        } else {
            WordScan { done: st.done, current: st.current.push(c), inside: true }
        }
    }
}

/// The maximal runs of non-whitespace characters of `s`, in order.
pub open spec fn words(s: Seq<char>) -> Seq<Seq<char>> {
    let st = word_scan(s);
    if st.inside {
        st.done.push(st.current)
    } else {
        st.done
    }
}

proof fn lemma_scan_words_nonempty(s: Seq<char>)
    ensures
        forall|j: int| 0 <= j < word_scan(s).done.len() ==> (#[trigger] word_scan(s).done[j]).len() > 0,
        word_scan(s).inside ==> word_scan(s).current.len() > 0,
    decreases s.len(),
{
    if s.len() > 0 {
        lemma_scan_words_nonempty(s.drop_last());
    }
}

/// Every word holds at least one character.
pub proof fn lemma_words_nonempty(s: Seq<char>)
    ensures
        forall|j: int| 0 <= j < words(s).len() ==> (#[trigger] words(s)[j]).len() > 0,
{
    lemma_scan_words_nonempty(s);
}

/// The state of a split of a text at line feeds: the lines completed and
/// the line being read.
pub struct LineScan {
    pub done: Seq<Seq<char>>,
    pub current: Seq<char>,
}

pub open spec fn line_scan(s: Seq<char>) -> LineScan
    decreases s.len(),
{
    if s.len() == 0 {
        LineScan { done: Seq::empty(), current: Seq::empty() }
    } else {
        let st = line_scan(s.drop_last());
        if s.last() == '\n' {
            LineScan { done: st.done.push(st.current), current: Seq::empty() }
        } else {
            LineScan { done: st.done, current: st.current.push(s.last()) }
        }
    }
}

/// The lines of `s`, split at each line feed.
pub open spec fn lines(s: Seq<char>) -> Seq<Seq<char>> {
    line_scan(s).done.push(line_scan(s).current)
}

/// The address and domain of a line: its first two words, unless it has
/// fewer than two or its first word starts a comment.
pub open spec fn line_entry(line: Seq<char>) -> Option<(Seq<char>, Seq<char>)> {
    let w = words(line);
    if w.len() >= 2 && w[0][0] != '#' {
        Some((w[0], w[1]))
    } else {
        None
    }
}

/// The entries of a sequence of lines, in order.
pub open spec fn entries_of(ls: Seq<Seq<char>>) -> Seq<(Seq<char>, Seq<char>)>
    decreases ls.len(),
{
    if ls.len() == 0 {
        Seq::empty()
    } else {
        entries_of(ls.drop_last()) + match line_entry(ls.last()) {
            Some(e) => seq![e],
            None => Seq::empty(),
        }
    }
}

/// The address and domain of an entry.
pub open spec fn entry_view(e: HostsEntry) -> (Seq<char>, Seq<char>) {
    (e.ip@, e.domain@)
}

fn string_of(cs: &Vec<char>) -> (r: String)
    ensures
        r@ == cs@,
{
    let mut r = String::new();
    let mut i: usize = 0;
    while i < cs.len()
        invariant
            i <= cs@.len(),
            r@ == cs@.subrange(0, i as int),
        decreases cs@.len() - i,
    {
        push_char(&mut r, cs[i]);
        i = i + 1;
        assert(r@ =~= cs@.subrange(0, i as int));
    }
    assert(cs@.subrange(0, i as int) =~= cs@);
    r
}

/// The words of a line.
fn words_of(line: &Vec<char>) -> (r: Vec<Vec<char>>)
    ensures
        r.deep_view() == words(line@),
{
    let mut done: Vec<Vec<char>> = Vec::new();
    let mut current: Vec<char> = Vec::new();
    let mut inside = false;
    let mut i: usize = 0;
    while i < line.len()
        invariant
            i <= line@.len(),
            done.deep_view() == word_scan(line@.subrange(0, i as int)).done,
            current@ == word_scan(line@.subrange(0, i as int)).current,
            inside == word_scan(line@.subrange(0, i as int)).inside,
        decreases line@.len() - i,
    {
        let c = line[i];
        assert(line@.subrange(0, i + 1).drop_last() =~= line@.subrange(0, i as int));
        if is_space_exec(c) {
            if inside {
                let ghost before = done.deep_view();
                assert(current.deep_view() =~= current@);
                done.push(current);
                assert(done.deep_view() =~= before.push(word_scan(line@.subrange(0, i as int)).current));
                current = Vec::new();
                inside = false;
            }
        } else {
            current.push(c);
            inside = true;
        }
        i = i + 1;
    }
    assert(line@.subrange(0, i as int) =~= line@);
    if inside {
        let ghost before = done.deep_view();
        let ghost cur = current@;
        assert(current.deep_view() =~= current@);
        done.push(current);
        assert(done.deep_view() =~= before.push(cur));
    }
    done
}

/// The lines of a text.
fn lines_of(text: &Vec<char>) -> (r: Vec<Vec<char>>)
    ensures
        r.deep_view() == lines(text@),
{
    let mut done: Vec<Vec<char>> = Vec::new();
    let mut current: Vec<char> = Vec::new();
    let mut i: usize = 0;
    while i < text.len()
        invariant
            i <= text@.len(),
            done.deep_view() == line_scan(text@.subrange(0, i as int)).done,
            current@ == line_scan(text@.subrange(0, i as int)).current,
        decreases text@.len() - i,
    {
        let c = text[i];
        assert(text@.subrange(0, i + 1).drop_last() =~= text@.subrange(0, i as int));
        if c == '\n' {
            let ghost before = done.deep_view();
            let ghost cur = current@;
            assert(current.deep_view() =~= current@);
            done.push(current);
            assert(done.deep_view() =~= before.push(cur));
            current = Vec::new();
        } else {
            current.push(c);
        }
        i = i + 1;
    }
    assert(text@.subrange(0, i as int) =~= text@);
    let ghost before = done.deep_view();
    let ghost cur = current@;
    assert(current.deep_view() =~= current@);
    done.push(current);
    assert(done.deep_view() =~= before.push(cur));
    done
}

/// Parses the text of a hosts file into its entries, in file order: for
/// each line that holds at least two words and does not start with `#`
/// (leading whitespace aside), the first word as the address and the second
/// as the domain.
pub fn parse_hosts(text: &str) -> (r: Vec<HostsEntry>)
    ensures
        r@.map_values(|e: HostsEntry| entry_view(e)) == entries_of(lines(text@)),
{
    let chars = chars_of(text);
    let ls = lines_of(&chars);
    let mut r: Vec<HostsEntry> = Vec::new();
    let mut i: usize = 0;
    while i < ls.len()
        invariant
            i <= ls@.len(),
            ls.deep_view() == lines(text@),
            r@.map_values(|e: HostsEntry| entry_view(e)) == entries_of(
                ls.deep_view().subrange(0, i as int),
            ),
        decreases ls@.len() - i,
    {
        let ghost prefix = ls.deep_view().subrange(0, i as int);
        let ghost next = ls.deep_view().subrange(0, i + 1);
        assert(next.drop_last() =~= prefix);
        assert(next.last() == ls@[i as int]@);
        let w = words_of(&ls[i]);
        proof {
            lemma_words_nonempty(next.last());
            if w@.len() > 0 {
                assert(w.deep_view()[0] == w@[0].deep_view());
                assert(w@[0].deep_view() =~= w@[0]@);
            }
            if w@.len() > 1 {
                assert(w.deep_view()[1] == w@[1].deep_view());
                assert(w@[1].deep_view() =~= w@[1]@);
            }
        }
        let ghost before = r@.map_values(|e: HostsEntry| entry_view(e));
        if w.len() >= 2 && w[0][0] != '#' {
            assert(w.deep_view()[0] == w@[0]@);
            assert(w.deep_view()[1] == w@[1]@);
            let entry = HostsEntry { ip: string_of(&w[0]), domain: string_of(&w[1]) };
            r.push(entry);
            assert(r@.map_values(|e: HostsEntry| entry_view(e)) =~= before.push(
                (w.deep_view()[0], w.deep_view()[1]),
            ));
            assert(r@.map_values(|e: HostsEntry| entry_view(e)) =~= entries_of(next));
        } else {
            proof {
                if w@.len() >= 2 {
                    assert(w.deep_view()[0] == w@[0]@);
                }
            }
            assert(entries_of(next) =~= entries_of(prefix));
        }
        i = i + 1;
    }
    assert(ls.deep_view().subrange(0, i as int) =~= ls.deep_view());
    r
}

} // verus!
