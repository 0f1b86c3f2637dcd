//! Documents for the knowledge base: one per package that has a manual
//! page, its text cleaned of terminal control sequences and blank lines.
//! Running `man` is the caller's business.

use crate::text::{
    is_space,
    lemma_trimmed_end,
    join,
    joined,
    lines_of,
    line_views,
    split_lines,
    string_of_range,
    to_chars,
    trimmed,
    trimmed_end,
    trimmed_end_len,
    trimmed_start_offset,
    views,
};
use vstd::prelude::*;
use vstd::string::*;

verus! {

/// A document to embed and store.
#[derive(Debug)]
pub struct CommandDoc {
    pub package_name: String,
    pub command_name: String,
    pub man_content: String,
}

/// `CommandDoc` as a mathematical value.
pub struct CommandDocView {
    pub package_name: Seq<char>,
    pub command_name: Seq<char>,
    pub man_content: Seq<char>,
}

impl View for CommandDoc {
    type V = CommandDocView;

    open spec fn view(&self) -> CommandDocView {
        CommandDocView {
            package_name: self.package_name@,
            command_name: self.command_name@,
            man_content: self.man_content@,
        }
    }
}

impl Clone for CommandDoc {
    fn clone(&self) -> (copy: Self)
        ensures
            copy@ == self@,
    {
        CommandDoc {
            package_name: self.package_name.clone(),
            command_name: self.command_name.clone(),
            man_content: self.man_content.clone(),
        }
    }
}

/// A digit or a semicolon: what stands between the opening and the final
/// letter of a colour sequence.
pub open spec fn is_colour_parameter(c: char) -> bool {
    ('0' as u32) <= (c as u32) <= ('9' as u32) || c == ';'
}

/// The first position at or after `start` that holds no colour parameter.
pub open spec fn parameters_end(text: Seq<char>, start: int) -> int
    decreases text.len() - start,
{
    if 0 <= start < text.len() && is_colour_parameter(text[start]) {
        parameters_end(text, start + 1)
    } else {
        start
    }
}

/// The end of the colour sequence that starts at `start`, if one starts
/// there: escape, an opening bracket, any number of digits and semicolons,
/// and the letter `m`.
pub open spec fn colour_sequence_end(text: Seq<char>, start: int) -> Option<int> {
    if 0 <= start && start + 1 < text.len() && text[start] == '\x1b' && text[start + 1] == '[' {
        let end = parameters_end(text, start + 2);
        if end < text.len() && text[end] == 'm' {
            Some(end + 1)
        } else {
            None
        }
    } else {
        None
    }
}

/// `text` from `start` on without its colour sequences, found from left to
/// right.
pub open spec fn without_colour(text: Seq<char>, start: int) -> Seq<char>
    decreases text.len() - start,
{
    if start < 0 || start >= text.len() {
        Seq::<char>::empty()
    } else {
        match colour_sequence_end(text, start) {
            Some(end) => {
                proof {
                    lemma_parameters_end_bounds(text, start + 2);
                }
                without_colour(text, end)
            },
            None => seq![text[start]] + without_colour(text, start + 1),
        }
    }
}

/// `text` from `start` on without its overstrikes, found from left to
/// right: a character other than a line feed that is followed by a
/// backspace is dropped together with the backspace.
pub open spec fn without_overstrike(text: Seq<char>, start: int) -> Seq<char>
    decreases text.len() - start,
{
    if start < 0 || start >= text.len() {
        Seq::<char>::empty()
    } else if start + 1 < text.len() && text[start] != '\n' && text[start + 1] == '\x08' {
        without_overstrike(text, start + 2)
    } else {
        seq![text[start]] + without_overstrike(text, start + 1)
    }
}

/// The lines that are kept: each line without the white space at its end,
/// unless nothing is left of it.
pub open spec fn kept_lines(lines: Seq<Seq<char>>) -> Seq<Seq<char>>
    decreases lines.len(),
{
    if lines.len() == 0 {
        Seq::<Seq<char>>::empty()
    } else {
        let before = kept_lines(lines.drop_last());
        let line = trimmed_end(lines.last());
        if line.len() > 0 {
            before.push(line)
        } else {
            before
        }
    }
}

/// A manual page as it is indexed: colour sequences and overstrikes
/// removed, then every line trimmed at its end and blank lines dropped.
pub open spec fn cleaned(content: Seq<char>) -> Seq<char> {
    joined(
        kept_lines(split_lines(without_overstrike(without_colour(content, 0), 0))),
        "\n"@,
    )
}

/// The parameters of a colour sequence end at or after their start and
/// within the text.
pub proof fn lemma_parameters_end_bounds(text: Seq<char>, start: int)
    requires
        0 <= start <= text.len(),
    ensures
        start <= parameters_end(text, start) <= text.len(),
    decreases text.len() - start,
{
    if start < text.len() && is_colour_parameter(text[start]) {
        lemma_parameters_end_bounds(text, start + 1);
    }
}

fn is_parameter(c: char) -> (yes: bool)
    ensures
        yes == is_colour_parameter(c),
{
    let n = c as u32;
    ('0' as u32 <= n && n <= '9' as u32) || c == ';'
}

/// The end of the colour sequence that starts at `start`, if one starts
/// there.
fn colour_end(text: &Vec<char>, start: usize) -> (end: Option<usize>)
    requires
        start < text.len(),
    ensures
        match end {
            Some(e) => colour_sequence_end(text@, start as int) == Some(e as int) && start < e
                <= text.len(),
            None => colour_sequence_end(text@, start as int) is None,
        },
{
    if text.len() - start < 2 || text[start] != '\x1b' || text[start + 1] != '[' {
        return None;
    }
    let mut end: usize = start + 2;
    while end < text.len() && is_parameter(text[end])
        invariant
            start + 2 <= end <= text.len(),
            parameters_end(text@, end as int) == parameters_end(text@, start + 2),
        decreases text.len() - end,
    {
        end = end + 1;
    }
    if end < text.len() && text[end] == 'm' {
        Some(end + 1)
    } else {
        None
    }
}

fn strip_colour(text: &Vec<char>) -> (plain: Vec<char>)
    ensures
        plain@ == without_colour(text@, 0),
{
    let mut plain: Vec<char> = Vec::new();
    let mut i: usize = 0;
    while i < text.len()
        invariant
            i <= text.len(),
            plain@ + without_colour(text@, i as int) == without_colour(text@, 0),
        decreases text.len() - i,
    {
        match colour_end(text, i) {
            Some(end) => {
                i = end;
            },
            None => {
                plain.push(text[i]);
                i = i + 1;
            },
        }
    }
    plain
}

fn strip_overstrike(text: &Vec<char>) -> (plain: Vec<char>)
    ensures
        plain@ == without_overstrike(text@, 0),
{
    let mut plain: Vec<char> = Vec::new();
    let mut i: usize = 0;
    while i < text.len()
        invariant
            i <= text.len(),
            plain@ + without_overstrike(text@, i as int) == without_overstrike(text@, 0),
        decreases text.len() - i,
    {
        if text.len() - i >= 2 && text[i] != '\n' && text[i + 1] == '\x08' {
            i = i + 2;
        } else {
            plain.push(text[i]);
            i = i + 1;
        }
    }
    plain
}

/// Cleans a manual page for indexing.
pub fn clean_man_content(content: &str) -> (clean: String)
    ensures
        clean@ == cleaned(content@),
{
    let raw = to_chars(content);
    let uncoloured = strip_colour(&raw);
    let plain = strip_overstrike(&uncoloured);
    let lines = lines_of(plain.as_slice());
    let mut kept: Vec<String> = Vec::new();
    let mut i: usize = 0;
    while i < lines.len()
        invariant
            i <= lines.len(),
            views(kept@) == kept_lines(line_views(lines@).take(i as int)),
        decreases lines.len() - i,
    {
        let line = &lines[i];
        let length = trimmed_end_len(line.as_slice());
        proof {
            let all = line_views(lines@);
            assert(all.take(i + 1).drop_last() =~= all.take(i as int));
        }
        if length > 0 {
            let text = string_of_range(line.as_slice(), 0, length);
            kept.push(text);
        }
        i = i + 1;
    }
    proof {
        assert(line_views(lines@).take(lines.len() as int) =~= line_views(lines@));
    }
    join(kept.as_slice(), "\n")
}

/// The options tried, in this order, on a command that has no manual page.
pub fn help_options() -> (options: Vec<&'static str>)
    ensures
        options@.len() == 3,
        options@[0]@ == "-h"@,
        options@[1]@ == "--help"@,
        options@[2]@ == "-help"@,
{
    let mut options: Vec<&'static str> = Vec::new();
    options.push("-h");
    options.push("--help");
    options.push("-help");
    options
}

/// The output of a help option stands in for a manual page unless it is
/// blank: empty or white space only.
pub fn is_blank(output: &str) -> (blank: bool)
    ensures
        blank == (trimmed(output@).len() == 0),
{
    let chars = to_chars(output);
    let end = trimmed_end_len(chars.as_slice());
    let start = trimmed_start_offset(chars.as_slice(), end);
    start == end
}

/// The documents for `pages`: one for each package whose manual page could
/// be read, in order, named after the package, with the page cleaned.
pub open spec fn indexed(pages: Seq<(String, Option<String>)>) -> Seq<CommandDocView>
    decreases pages.len(),
{
    if pages.len() == 0 {
        Seq::<CommandDocView>::empty()
    } else {
        let before = indexed(pages.drop_last());
        match pages.last().1 {
            Some(content) => before.push(
                CommandDocView {
                    package_name: pages.last().0@,
                    command_name: pages.last().0@,
                    man_content: cleaned(content@),
                },
            ),
            None => before,
        }
    }
}

/// The views of `docs`, in order.
pub open spec fn doc_views(docs: Seq<CommandDoc>) -> Seq<CommandDocView> {
    docs.map_values(|d: CommandDoc| d@)
}

/// Turns packages and their manual pages into documents. A package without
/// a page is skipped.
pub fn index_brew_packages(pages: &[(String, Option<String>)]) -> (docs: Vec<CommandDoc>)
    ensures
        doc_views(docs@) == indexed(pages@),
{
    let mut docs: Vec<CommandDoc> = Vec::new();
    let mut i: usize = 0;
    while i < pages.len()
        invariant
            i <= pages.len(),
            doc_views(docs@) == indexed(pages@.take(i as int)),
        decreases pages.len() - i,
    {
        proof {
            assert(pages@.take(i + 1).drop_last() =~= pages@.take(i as int));
        }
        let page = &pages[i];
        match &page.1 {
            Some(content) => {
                let doc = CommandDoc {
                    package_name: page.0.clone(),
                    command_name: page.0.clone(),
                    man_content: clean_man_content(content.as_str()),
                };
                docs.push(doc);
            },
            None => {},
        }
        i = i + 1;
    }
    proof {
        assert(pages@.take(pages.len() as int) =~= pages@);
    }
    docs
}

/// No kept line is blank and none ends in white space.
pub proof fn lemma_kept_lines_are_trimmed(lines: Seq<Seq<char>>)
    ensures
        kept_lines(lines).len() <= lines.len(),
        forall|i: int|
            0 <= i < kept_lines(lines).len() ==> (#[trigger] kept_lines(lines)[i]).len() > 0
                && !is_space(kept_lines(lines)[i].last()),
    decreases lines.len(),
{
    if lines.len() > 0 {
        lemma_kept_lines_are_trimmed(lines.drop_last());
        lemma_trimmed_end(lines.last());
    }
}

/// A page without escape characters and backspaces loses only blank lines
/// and the white space at the end of lines.
pub proof fn lemma_plain_page_keeps_its_text(content: Seq<char>)
    requires
        forall|k: int| 0 <= k < content.len() ==> content[k] != '\x1b' && content[k] != '\x08',
    ensures
        cleaned(content) == joined(kept_lines(split_lines(content)), "\n"@),
{
    lemma_plain_from(content, 0);
    assert(content.skip(0) =~= content);
}

proof fn lemma_plain_from(content: Seq<char>, start: int)
    requires
        0 <= start <= content.len(),
        forall|k: int| 0 <= k < content.len() ==> content[k] != '\x1b' && content[k] != '\x08',
    ensures
        without_colour(content, start) == content.skip(start),
        without_overstrike(content, start) == content.skip(start),
    decreases content.len() - start,
{
    if start < content.len() {
        lemma_plain_from(content, start + 1);
    }
}

} // verus!
