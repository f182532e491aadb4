//! Splits raw per-page text into bounded-length retrieval units.
//!
//! A page is first split on line boundaries (a `\n`, with a `\r` directly
//! before it dropped), and any line longer than the bound of 512 characters
//! is then split repeatedly, head segment of exactly the bound first, so
//! that every emitted unit respects the bound. A page whose
//! extraction failed yields exactly one empty unit, preserving page-count
//! accounting. No unit is ever discarded for being empty.

use vstd::prelude::*;

verus! {

/// The character sequences of a vector of strings, in order.
pub open spec fn views_of(units: Seq<String>) -> Seq<Seq<char>> {
    units.map_values(|u: String| u@)
}

/// A line with a single trailing carriage return removed.
pub open spec fn strip_cr(line: Seq<char>) -> Seq<char> {
    if line.len() > 0 && line[line.len() - 1] == '\r' {
        line.drop_last()
    } else {
        line
    }
}

/// The lines of `s` after the partial line `cur`: `s` is consumed left to
/// right, `\n` ends a line (dropping a `\r` just before it), and a final
/// unterminated line is kept; an empty final accumulator yields no line.
pub open spec fn lines_from(s: Seq<char>, cur: Seq<char>) -> Seq<Seq<char>>
    decreases s.len(),
{
    if s.len() == 0 {
        if cur.len() == 0 {
            Seq::empty()
        } else {
            seq![cur]
        }
    } else if s[0] == '\n' {
        seq![strip_cr(cur)] + lines_from(s.drop_first(), Seq::empty())
    } else {
        lines_from(s.drop_first(), cur.push(s[0]))
    }
}

/// The line sequence of a page text.
pub open spec fn lines_of(s: Seq<char>) -> Seq<Seq<char>> {
    lines_from(s, Seq::empty())
}

/// One line split into units: itself if within the bound, else a head of
/// exactly the bound followed by the split of the remainder.
pub open spec fn split_line(line: Seq<char>) -> Seq<Seq<char>>
    decreases line.len(),
{
    if line.len() <= 512 {
        seq![line]
    } else {
        seq![line.subrange(0, 512)] + split_line(line.subrange(512, line.len() as int))
    }
}

/// All units of a line sequence, in order.
pub open spec fn chunk_lines(lines: Seq<Seq<char>>) -> Seq<Seq<char>>
    decreases lines.len(),
{
    if lines.len() == 0 {
        Seq::empty()
    } else {
        split_line(lines[0]) + chunk_lines(lines.drop_first())
    }
}

/// The units of one page text: its lines, each split to the bound.
pub open spec fn chunk_page_spec(s: Seq<char>) -> Seq<Seq<char>> {
    chunk_lines(lines_of(s))
}

/// Splits one line into units of at most the bound, head segments first.
pub fn split_long_line(line: &str) -> (units: Vec<String>)
    ensures
        views_of(units@) == split_line(line@),
{
    let mut units: Vec<String> = Vec::new();
    let mut rest: &str = line;
    let mut rest_len: usize = rest.unicode_len();
    proof {
        assert(views_of(units@) + split_line(rest@) == split_line(line@)) by {
            assert(views_of(units@) =~= Seq::<Seq<char>>::empty());
            assert(Seq::<Seq<char>>::empty() + split_line(line@) =~= split_line(line@));
        }
    }
    while rest_len > 512
        invariant
            rest_len == rest@.len(),
            views_of(units@) + split_line(rest@) == split_line(line@),
        decreases rest_len,
    {
        let head = rest.substring_char(0, 512);
        let tail = rest.substring_char(512, rest_len);
        let ghost prev_units = units@;
        let ghost prev_rest = rest@;
        units.push(String::from_str(head));
        rest = tail;
        rest_len = rest_len - 512;
        proof {
            assert(views_of(units@) =~= views_of(prev_units) + seq![prev_rest.subrange(0, 512)]);
            assert(split_line(prev_rest) == seq![prev_rest.subrange(0, 512)] + split_line(rest@));
            assert(views_of(units@) + split_line(rest@) =~= views_of(prev_units) + split_line(
                prev_rest,
            ));
        }
    }
    let ghost prev_units = units@;
    units.push(String::from_str(rest));
    proof {
        assert(split_line(rest@) =~= seq![rest@]);
        assert(views_of(units@) =~= views_of(prev_units) + seq![rest@]);
        assert(views_of(units@) =~= views_of(prev_units) + split_line(rest@));
    }
    units
}

/// Splits one page text into its retrieval units: line by line, each line
/// split to the length bound.
pub fn chunk_page(page: &str) -> (units: Vec<String>)
    ensures
        views_of(units@) == chunk_page_spec(page@),
{
    let mut units: Vec<String> = Vec::new();
    let len: usize = page.unicode_len();
    let mut i: usize = 0;
    let mut line_start: usize = 0;
    proof {
        assert(page@.subrange(0, len as int) =~= page@);
        assert(page@.subrange(0, 0) =~= Seq::<char>::empty());
        assert(views_of(units@) =~= Seq::<Seq<char>>::empty());
        assert(Seq::<Seq<char>>::empty() + chunk_lines(lines_from(page@, Seq::empty()))
            =~= chunk_page_spec(page@));
    }
    while i < len
        invariant
            len == page@.len(),
            line_start <= i <= len,
            views_of(units@) + chunk_lines(
                lines_from(
                    page@.subrange(i as int, len as int),
                    page@.subrange(line_start as int, i as int),
                ),
            ) == chunk_page_spec(page@),
        decreases len - i,
    {
        let ghost rest = page@.subrange(i as int, len as int);
        let ghost cur = page@.subrange(line_start as int, i as int);
        let c = page.get_char(i);
        if c == '\n' {
            let line_end: usize = if i > line_start && page.get_char(i - 1) == '\r' {
                i - 1
            } else {
                i
            };
            let line = page.substring_char(line_start, line_end);
            proof {
                assert(line@ =~= strip_cr(cur)) by {
                    if i > line_start && page@[i - 1] == '\r' {
                        assert(cur.len() > 0 && cur[cur.len() - 1] == '\r');
                        assert(page@.subrange(line_start as int, i - 1) =~= cur.drop_last());
                    } else {
                        if cur.len() > 0 {
                            assert(cur[cur.len() - 1] == page@[i - 1]);
                        }
                    }
                }
            }
            let mut line_units = split_long_line(line);
            let ghost prev_units = units@;
            units.append(&mut line_units);
            proof {
                assert(rest[0] == '\n');
                assert(rest.drop_first() =~= page@.subrange(i + 1, len as int));
                assert(lines_from(rest, cur) == seq![strip_cr(cur)] + lines_from(
                    rest.drop_first(),
                    Seq::empty(),
                ));
                let tail_lines = lines_from(page@.subrange(i + 1, len as int), Seq::empty());
                assert(chunk_lines(seq![strip_cr(cur)] + tail_lines) == split_line(strip_cr(cur))
                    + chunk_lines(tail_lines)) by {
                    let all = seq![strip_cr(cur)] + tail_lines;
                    assert(all[0] == strip_cr(cur));
                    assert(all.drop_first() =~= tail_lines);
                }
                assert(views_of(units@) =~= views_of(prev_units) + split_line(line@));
                assert(page@.subrange(i + 1, i + 1) =~= Seq::<char>::empty());
                assert(views_of(units@) + chunk_lines(
                    lines_from(page@.subrange(i + 1, len as int), page@.subrange(i + 1, i + 1)),
                ) =~= views_of(prev_units) + chunk_lines(lines_from(rest, cur)));
            }
            line_start = i + 1;
        } else {
            proof {
                assert(rest[0] == page@[i as int] && rest[0] != '\n');
                assert(rest.drop_first() =~= page@.subrange(i + 1, len as int));
                assert(cur.push(page@[i as int]) =~= page@.subrange(line_start as int, i + 1));
                assert(lines_from(rest, cur) == lines_from(
                    page@.subrange(i + 1, len as int),
                    page@.subrange(line_start as int, i + 1),
                ));
            }
        }
        i = i + 1;
    }
    if line_start < len {
        let line = page.substring_char(line_start, len);
        let mut line_units = split_long_line(line);
        let ghost prev_units = units@;
        units.append(&mut line_units);
        proof {
            let ghost cur = page@.subrange(line_start as int, len as int);
            assert(page@.subrange(len as int, len as int) =~= Seq::<char>::empty());
            assert(cur.len() > 0);
            assert(lines_from(Seq::empty(), cur) =~= seq![cur]);
            assert(chunk_lines(seq![cur]) =~= split_line(cur) + chunk_lines(
                Seq::<Seq<char>>::empty(),
            )) by {
                assert(seq![cur].drop_first() =~= Seq::<Seq<char>>::empty());
            }
            assert(chunk_lines(Seq::<Seq<char>>::empty()) =~= Seq::<Seq<char>>::empty());
            assert(split_line(cur) + Seq::<Seq<char>>::empty() =~= split_line(cur));
            assert(views_of(units@) =~= views_of(prev_units) + split_line(cur));
        }
    } else {
        proof {
            assert(page@.subrange(len as int, len as int) =~= Seq::<char>::empty());
            assert(page@.subrange(line_start as int, len as int) =~= Seq::<char>::empty());
            assert(lines_from(Seq::empty(), Seq::empty()) =~= Seq::<Seq<char>>::empty());
            assert(views_of(units@) + chunk_lines(Seq::<Seq<char>>::empty()) =~= views_of(
                units@,
            ));
        }
    }
    units
}

/// The text of one document page: either extracted successfully, or failed.
pub enum PageText {
    Extracted(String),
    Failed,
}

/// The units contributed by one page: its chunked text when extraction
/// succeeded, and exactly one empty unit when it failed.
pub open spec fn page_units(p: PageText) -> Seq<Seq<char>> {
    match p {
        PageText::Extracted(s) => chunk_page_spec(s@),
        PageText::Failed => seq![Seq::empty()],
    }
}

/// All units of a page sequence, in page order.
pub open spec fn pages_units(pages: Seq<PageText>) -> Seq<Seq<char>>
    decreases pages.len(),
{
    if pages.len() == 0 {
        Seq::empty()
    } else {
        page_units(pages[0]) + pages_units(pages.drop_first())
    }
}

/// Chunks one page, yielding one empty placeholder unit when its extraction
/// failed, so that no page disappears from the accounting.
pub fn chunk_one_page(p: &PageText) -> (units: Vec<String>)
    ensures
        views_of(units@) == page_units(*p),
        p is Failed ==> units@.len() == 1 && units@[0]@ == Seq::<char>::empty(),
{
    match p {
        PageText::Extracted(s) => {
            let units = chunk_page(s.as_str());
            units
        },
        PageText::Failed => {
            let mut units: Vec<String> = Vec::new();
            units.push(String::new());
            proof {
                assert(views_of(units@) =~= seq![Seq::<char>::empty()]);
            }
            units
        },
    }
}

/// Chunks a whole document, page by page, in order.
pub fn chunk_pages(pages: &Vec<PageText>) -> (units: Vec<String>)
    ensures
        views_of(units@) == pages_units(pages@),
{
    let mut units: Vec<String> = Vec::new();
    proof {
        assert(views_of(units@) =~= Seq::<Seq<char>>::empty());
        assert(pages@.subrange(0, pages@.len() as int) =~= pages@);
        assert(Seq::<Seq<char>>::empty() + pages_units(pages@) =~= pages_units(pages@));
    }
    let mut i: usize = 0;
    while i < pages.len()
        invariant
            i <= pages@.len(),
            views_of(units@) + pages_units(pages@.subrange(i as int, pages@.len() as int))
                == pages_units(pages@),
        decreases pages@.len() - i,
    {
        let ghost rest = pages@.subrange(i as int, pages@.len() as int);
        let mut page_vec = chunk_one_page(&pages[i]);
        let ghost prev_units = units@;
        units.append(&mut page_vec);
        proof {
            assert(rest[0] == pages@[i as int]);
            assert(rest.drop_first() =~= pages@.subrange(i + 1, pages@.len() as int));
            assert(views_of(units@) =~= views_of(prev_units) + page_units(pages@[i as int]));
            assert(views_of(units@) + pages_units(pages@.subrange(i + 1, pages@.len() as int))
                =~= views_of(prev_units) + pages_units(rest));
        }
        i = i + 1;
    }
    proof {
        assert(pages@.subrange(pages@.len() as int, pages@.len() as int)
            =~= Seq::<PageText>::empty());
        assert(views_of(units@) + pages_units(Seq::<PageText>::empty()) =~= views_of(units@));
    }
    units
}

/// Law: every unit a line splits into has at most the bound of characters.
pub proof fn lemma_split_line_bounded(line: Seq<char>)
    ensures
        forall|j: int|
            0 <= j < split_line(line).len() ==> (#[trigger] split_line(line)[j]).len() <= 512,
    decreases line.len(),
{
    if line.len() <= 512 {
    } else {
        let head = line.subrange(0, 512);
        let tail = line.subrange(512, line.len() as int);
        lemma_split_line_bounded(tail);
        assert forall|j: int| 0 <= j < split_line(line).len() implies (#[trigger] split_line(
            line,
        )[j]).len() <= 512 by {
            assert(split_line(line) == seq![head] + split_line(tail));
            if j > 0 {
                assert(split_line(line)[j] == split_line(tail)[j - 1]);
            }
        }
    }
}

/// Law: every unit the chunker produces from a page has at most the bound of
/// characters.
pub proof fn lemma_chunk_lines_bounded(lines: Seq<Seq<char>>)
    ensures
        forall|j: int|
            0 <= j < chunk_lines(lines).len() ==> (#[trigger] chunk_lines(lines)[j]).len() <= 512,
    decreases lines.len(),
{
    if lines.len() == 0 {
    } else {
        let rest = lines.drop_first();
        lemma_split_line_bounded(lines[0]);
        lemma_chunk_lines_bounded(rest);
        assert forall|j: int| 0 <= j < chunk_lines(lines).len() implies (#[trigger] chunk_lines(
            lines,
        )[j]).len() <= 512 by {
            assert(chunk_lines(lines) == split_line(lines[0]) + chunk_lines(rest));
            if j < split_line(lines[0]).len() {
                assert(chunk_lines(lines)[j] == split_line(lines[0])[j]);
            } else {
                assert(chunk_lines(lines)[j] == chunk_lines(rest)[j - split_line(
                    lines[0],
                ).len()]);
            }
        }
    }
}

/// Law: every unit of a chunked page respects the length bound.
pub proof fn lemma_chunk_page_bounded(s: Seq<char>)
    ensures
        forall|j: int|
            0 <= j < chunk_page_spec(s).len() ==> (#[trigger] chunk_page_spec(s)[j]).len() <= 512,
{
    lemma_chunk_lines_bounded(lines_of(s));
}

/// Law: the units of one line, concatenated in order, give the line back.
pub proof fn lemma_split_line_reconstructs(line: Seq<char>)
    ensures
        split_line(line).flatten() == line,
    decreases line.len(),
{
    if line.len() <= 512 {
        assert(split_line(line).flatten() =~= line) by {
            seq![line].lemma_flatten_one_element();
        }
    } else {
        let head = line.subrange(0, 512);
        let tail = line.subrange(512, line.len() as int);
        lemma_split_line_reconstructs(tail);
        vstd::seq_lib::lemma_flatten_concat(seq![head], split_line(tail));
        seq![head].lemma_flatten_one_element();
        assert((seq![head] + split_line(tail)).flatten() =~= head + tail);
        assert(head + tail =~= line);
    }
}

/// Law: the units of a line sequence, concatenated in order, give the
/// concatenation of the lines themselves: chunking loses no text.
pub proof fn lemma_chunk_lines_reconstructs(lines: Seq<Seq<char>>)
    ensures
        chunk_lines(lines).flatten() == lines.flatten(),
    decreases lines.len(),
{
    if lines.len() == 0 {
        assert(chunk_lines(lines).flatten() =~= lines.flatten());
    } else {
        let rest = lines.drop_first();
        lemma_split_line_reconstructs(lines[0]);
        lemma_chunk_lines_reconstructs(rest);
        vstd::seq_lib::lemma_flatten_concat(split_line(lines[0]), chunk_lines(rest));
        assert(chunk_lines(lines).flatten() =~= split_line(lines[0]).flatten() + chunk_lines(
            rest,
        ).flatten());
        assert(lines.flatten() =~= lines[0] + rest.flatten()) by {
            assert(lines =~= seq![lines[0]] + rest);
            vstd::seq_lib::lemma_flatten_concat(seq![lines[0]], rest);
            seq![lines[0]].lemma_flatten_one_element();
        }
    }
}

/// Law: the units of a chunked page, concatenated in order, reconstruct the
/// page's line sequence.
pub proof fn lemma_chunk_page_reconstructs(s: Seq<char>)
    ensures
        chunk_page_spec(s).flatten() == lines_of(s).flatten(),
{
    lemma_chunk_lines_reconstructs(lines_of(s));
}

} // verus!
