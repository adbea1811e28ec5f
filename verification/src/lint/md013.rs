//! The line-length rule: finding lines that are too long, and rewrapping them.

use crate::lint::chars::{numeric_char, whitespace_char};
use crate::lint::config::Md013Config;
use crate::lint::patterns::{compile, compiled, is_match, matches_in};
use crate::lint::wrapping::{fill, filled};
use crate::text::{
    chars_of, decimal_digits, digits_of, join_lines, joined, line_models, lines_of, slice_of,
    split_lines, string_of,
};
use vstd::prelude::*;

verus! {

/// The pattern of a line that opens or closes a fenced code block.
pub open spec fn fence_pattern() -> Seq<char> {
    "^```"@
}

/// The pattern of a table row.
pub open spec fn table_pattern() -> Seq<char> {
    "^\\|.*\\|"@
}

/// A line that is longer than the rule allows.
#[derive(Debug, PartialEq, Eq)]
pub struct Violation {
    /// The number of the line in its text, counted from 1.
    pub line_number: usize,
    /// The number of characters of the line.
    pub actual_length: usize,
    /// The greatest number of characters allowed.
    pub expected_length: usize,
    /// The line itself.
    pub line_content: String,
}

/// The mathematical content of a [`Violation`].
pub struct ViolationModel {
    pub line_number: usize,
    pub actual_length: usize,
    pub expected_length: usize,
    pub line_content: Seq<char>,
}

impl View for Violation {
    type V = ViolationModel;

    open spec fn view(&self) -> ViolationModel {
        ViolationModel {
            line_number: self.line_number,
            actual_length: self.actual_length,
            expected_length: self.expected_length,
            line_content: self.line_content@,
        }
    }
}

impl Clone for Violation {
    fn clone(&self) -> (r: Self)
        ensures
            r@ == self@,
    {
        Violation {
            line_number: self.line_number,
            actual_length: self.actual_length,
            expected_length: self.expected_length,
            line_content: self.line_content.clone(),
        }
    }
}

/// The contents of a list of violations.
pub open spec fn violation_models(violations: Seq<Violation>) -> Seq<ViolationModel> {
    Seq::new(violations.len(), |i: int| violations[i]@)
}

/// The number of whitespace characters that a line begins with.
pub open spec fn indent_len(line: Seq<char>) -> int
    decreases line.len(),
{
    if line.len() == 0 || !whitespace_char(line[0]) {
        0
    } else {
        1 + indent_len(line.drop_first())
    }
}

/// Whether a full stop stands at `i` and a space after it.
pub open spec fn stop_at(line: Seq<char>, i: int) -> bool {
    0 <= i && i + 1 < line.len() && line[i] == '.' && line[i + 1] == ' '
}

/// The position of the first full stop that a space follows, or the length
/// of the line where there is none.
pub open spec fn marker_end(line: Seq<char>) -> int
    decreases line.len(),
{
    if line.len() < 2 {
        line.len() as int
    } else if stop_at(line, 0) {
        0
    } else {
        1 + marker_end(line.drop_first())
    }
}

/// The line without its indentation.
pub open spec fn unindented(line: Seq<char>) -> Seq<char> {
    line.skip(indent_len(line))
}

/// Whether the line is an item of a bullet list: after its indentation
/// stand `-` or `*` and a space.
pub open spec fn is_bullet(line: Seq<char>) -> bool {
    let rest = unindented(line);
    rest.len() >= 2 && (rest[0] == '-' || rest[0] == '*') && rest[1] == ' '
}

/// Whether the line is an item of a numbered list: after its indentation
/// stands a numeric character, and somewhere a full stop that a space follows.
pub open spec fn is_numbered(line: Seq<char>) -> bool {
    let rest = unindented(line);
    rest.len() >= 1 && numeric_char(rest[0]) && marker_end(line) < line.len()
}

/// Whether the line is a heading: after its indentation stands `#`.
pub open spec fn is_heading(line: Seq<char>) -> bool {
    let rest = unindented(line);
    rest.len() >= 1 && rest[0] == '#'
}

/// Whether the line holds nothing but whitespace.
pub open spec fn is_blank(line: Seq<char>) -> bool {
    indent_len(line) >= line.len()
}

/// The text wrapped as the linter wraps: at ASCII spaces, with no word broken.
pub open spec fn wrapped(text: Seq<char>, width: usize) -> Seq<Seq<char>> {
    lines_of(filled(text, width, false, true))
}

/// The lines of a list item after wrapping: the first wrapped line follows
/// the item's marker, every further one a hanging indent. An item whose text
/// wraps to nothing keeps its marker alone.
pub open spec fn hanging(head: Seq<char>, indent: Seq<char>, wrapped: Seq<Seq<char>>) -> Seq<
    Seq<char>,
> {
    if wrapped.len() == 0 {
        seq![head]
    } else {
        Seq::new(
            wrapped.len(),
            |i: int|
                if i == 0 {
                    head + wrapped[0]
                } else {
                    indent + wrapped[i]
                },
        )
    }
}

/// The lines that take the place of a line that is too long.
///
/// A bullet item keeps its indentation and marker and wraps the text after
/// them, with two more spaces of indentation on the lines that follow. A
/// numbered item does the same with what stands up to the first full stop
/// and space, and three more spaces. A heading and a blank line stay as they
/// are. Any other line is wrapped as a paragraph.
pub open spec fn rewrapped(line: Seq<char>, width: usize) -> Seq<Seq<char>> {
    let indent = line.take(indent_len(line));
    if is_bullet(line) {
        let cut = indent_len(line) + 2;
        hanging(line.take(cut), indent + "  "@, wrapped(line.skip(cut), width))
    } else if is_numbered(line) {
        let cut = marker_end(line) + 2;
        hanging(line.take(cut), indent + "   "@, wrapped(line.skip(cut), width))
    } else if is_heading(line) || is_blank(line) {
        seq![line]
    } else {
        wrapped(line, width)
    }
}

/// The report of one violation for the file at `path`.
pub open spec fn report_line(path: Seq<char>, violation: ViolationModel) -> Seq<char> {
    path + ":"@ + decimal_digits(violation.line_number as nat)
        + " MD013/line-length Line length [Expected: "@ + decimal_digits(
        violation.expected_length as nat,
    ) + "; Actual: "@ + decimal_digits(violation.actual_length as nat) + "]\n"@
}

/// The reports of the first `n` violations, one after the other.
pub open spec fn report(path: Seq<char>, violations: Seq<ViolationModel>, n: int) -> Seq<char>
    decreases n,
{
    if n <= 0 {
        Seq::empty()
    } else {
        report(path, violations, n - 1) + report_line(path, violations[n - 1])
    }
}

/// The indentation ends at `k` where everything before `k` is whitespace
/// and what stands at `k`, if anything, is not.
proof fn lemma_indent_is(line: Seq<char>, k: int)
    requires
        0 <= k <= line.len(),
        forall|i: int| 0 <= i < k ==> whitespace_char(#[trigger] line[i]),
        k < line.len() ==> !whitespace_char(line[k]),
    ensures
        indent_len(line) == k,
    decreases line.len(),
{
    if k > 0 {
        let rest = line.drop_first();
        assert forall|i: int| 0 <= i < k - 1 implies whitespace_char(#[trigger] rest[i]) by {}
        lemma_indent_is(rest, k - 1);
    }
}

/// The first full stop before a space stands at `k` where one stands there
/// and none before; there is none where none stands anywhere.
proof fn lemma_marker_end_is(line: Seq<char>, k: int)
    requires
        0 <= k <= line.len(),
        forall|i: int| 0 <= i < k ==> !#[trigger] stop_at(line, i),
        k < line.len() ==> stop_at(line, k),
    ensures
        marker_end(line) == k,
    decreases line.len(),
{
    if line.len() >= 2 && k > 0 {
        let rest = line.drop_first();
        assert forall|i: int| 0 <= i < k - 1 implies !#[trigger] stop_at(rest, i) by {
            assert(!stop_at(line, i + 1));
        }
        lemma_marker_end_is(rest, k - 1);
    }
}

/// Computes [`indent_len`].
fn indentation(line: &Vec<char>) -> (k: usize)
    ensures
        k == indent_len(line@),
        k <= line.len(),
{
    let mut k: usize = 0;
    while k < line.len() && line[k].is_whitespace()
        invariant
            k <= line.len(),
            forall|i: int| 0 <= i < k ==> whitespace_char(#[trigger] line@[i]),
        decreases line.len() - k,
    {
        k += 1;
    }
    proof {
        lemma_indent_is(line@, k as int);
    }
    k
}

/// Computes [`marker_end`].
fn find_marker_end(line: &Vec<char>) -> (k: usize)
    ensures
        k == marker_end(line@),
        k <= line.len(),
        k < line.len() ==> k + 1 < line.len(),
{
    let n = line.len();
    let mut k: usize = 0;
    while k < n
        invariant
            k <= n,
            n == line.len(),
            forall|i: int| 0 <= i < k ==> !#[trigger] stop_at(line@, i),
        decreases n - k,
    {
        if k + 1 < n && line[k] == '.' && line[k + 1] == ' ' {
            proof {
                lemma_marker_end_is(line@, k as int);
            }
            return k;
        }
        k += 1;
    }
    proof {
        lemma_marker_end_is(line@, n as int);
    }
    n
}

/// The characters of `a` followed by those of `b`.
fn concat(a: &Vec<char>, b: &Vec<char>) -> (r: Vec<char>)
    ensures
        r@ == a@ + b@,
{
    let mut r = slice_of(a, 0, a.len());
    let mut i: usize = 0;
    while i < b.len()
        invariant
            i <= b.len(),
            r@ == a@ + b@.take(i as int),
        decreases b.len() - i,
    {
        r.push(b[i]);
        i += 1;
    }
    r
}

/// Arranges the wrapped text of a list item; see [`hanging`].
pub fn hang_lines(head: &Vec<char>, indent: &Vec<char>, wrapped: &Vec<Vec<char>>) -> (lines: Vec<
    Vec<char>,
>)
    ensures
        line_models(lines@) == hanging(head@, indent@, line_models(wrapped@)),
{
    let ghost target = hanging(head@, indent@, line_models(wrapped@));
    let mut lines: Vec<Vec<char>> = Vec::new();
    if wrapped.len() == 0 {
        let copy = slice_of(head, 0, head.len());
        assert(copy@ =~= head@);
        lines.push(copy);
        return lines;
    }
    let first = concat(head, &wrapped[0]);
    lines.push(first);
    let mut i: usize = 1;
    while i < wrapped.len()
        invariant
            1 <= i <= wrapped.len(),
            target == hanging(head@, indent@, line_models(wrapped@)),
            line_models(lines@) == target.take(i as int),
        decreases wrapped.len() - i,
    {
        let ghost earlier = line_models(lines@);
        let next = concat(indent, &wrapped[i]);
        lines.push(next);
        assert(line_models(lines@) =~= earlier.push(next@));
        i += 1;
    }
    lines
}

/// Appends the lines `more` to `out`.
fn push_all(out: &mut Vec<Vec<char>>, more: Vec<Vec<char>>)
    ensures
        line_models(final(out)@) == line_models(old(out)@) + line_models(more@),
{
    let mut more = more;
    out.append(&mut more);
}

/// Fills `text` and splits the result into lines.
fn wrap_lines(text: &Vec<char>, width: usize) -> (lines: Vec<Vec<char>>)
    ensures
        line_models(lines@) == wrapped(text@, width),
{
    let source = string_of(text);
    let filled_text = fill(source.as_str(), width, false, true);
    let chars = chars_of(filled_text.as_str());
    let lines = split_lines(&chars);
    lines
}

/// Computes [`rewrapped`] and appends its lines to `out`.
fn push_rewrapped(out: &mut Vec<Vec<char>>, line: &Vec<char>, width: usize)
    ensures
        line_models(final(out)@) == line_models(old(out)@) + rewrapped(line@, width),
{
    let n = line.len();
    let indent = indentation(line);
    let bullet = n - indent >= 2 && (line[indent] == '-' || line[indent] == '*') && line[indent
        + 1] == ' ';
    if bullet {
        let cut = indent + 2;
        let head = slice_of(line, 0, cut);
        let mut hang = slice_of(line, 0, indent);
        hang.push(' ');
        hang.push(' ');
        let body = slice_of(line, cut, n);
        let body_lines = wrap_lines(&body, width);
        proof {
            reveal_strlit("  ");
            assert(hang@ =~= line@.take(indent as int) + "  "@);
        }
        let arranged = hang_lines(&head, &hang, &body_lines);
        push_all(out, arranged);
        return ;
    }
    let marker = find_marker_end(line);
    let numbered = indent < n && line[indent].is_numeric() && marker < n;
    if numbered {
        let cut = marker + 2;
        let head = slice_of(line, 0, cut);
        let mut hang = slice_of(line, 0, indent);
        hang.push(' ');
        hang.push(' ');
        hang.push(' ');
        let body = slice_of(line, cut, n);
        let body_lines = wrap_lines(&body, width);
        proof {
            reveal_strlit("   ");
            assert(hang@ =~= line@.take(indent as int) + "   "@);
        }
        let arranged = hang_lines(&head, &hang, &body_lines);
        push_all(out, arranged);
        return ;
    }
    let heading = indent < n && line[indent] == '#';
    if heading || indent >= n {
        let copy = slice_of(line, 0, n);
        assert(copy@ =~= line@);
        out.push(copy);
        return ;
    }
    let paragraph = wrap_lines(line, width);
    push_all(out, paragraph);
}

/// The number of decimal digits of `n`, written out.
fn number_text(n: usize) -> (r: String)
    ensures
        r@ == decimal_digits(n as nat),
{
    string_of(&digits_of(n as u64))
}

/// A line together with what the linter's expressions say of it.
#[derive(Debug, PartialEq, Eq)]
pub struct MarkedLine {
    /// The characters of the line.
    pub text: Vec<char>,
    /// Whether the line opens or closes a fenced code block.
    pub is_fence: bool,
    /// Whether the line is a table row.
    pub is_table: bool,
}

/// The mathematical content of a [`MarkedLine`].
pub struct MarkedModel {
    pub text: Seq<char>,
    pub is_fence: bool,
    pub is_table: bool,
}

impl View for MarkedLine {
    type V = MarkedModel;

    open spec fn view(&self) -> MarkedModel {
        MarkedModel { text: self.text@, is_fence: self.is_fence, is_table: self.is_table }
    }
}

/// The contents of a list of marked lines.
pub open spec fn marked_models(lines: Seq<MarkedLine>) -> Seq<MarkedModel> {
    Seq::new(lines.len(), |i: int| lines[i]@)
}

/// The number of fence lines among the first `i` lines.
pub open spec fn fences_before(lines: Seq<MarkedModel>, i: int) -> nat
    decreases i,
{
    if i <= 0 {
        0
    } else if lines[i - 1].is_fence {
        fences_before(lines, i - 1) + 1
    } else {
        fences_before(lines, i - 1)
    }
}

/// Whether line `i` stands inside a fenced code block: an odd number of
/// fence lines stands before it.
pub open spec fn in_code_block(lines: Seq<MarkedModel>, i: int) -> bool {
    fences_before(lines, i) % 2 == 1
}

/// Whether the rule passes over line `i`: a fence line, a line inside a code
/// block where the rule does not apply to code blocks, a table row where it
/// does not apply to tables.
pub open spec fn is_exempt(config: Md013Config, lines: Seq<MarkedModel>, i: int) -> bool {
    ||| lines[i].is_fence
    ||| (in_code_block(lines, i) && !config.code_blocks)
    ||| (lines[i].is_table && !config.tables)
}

/// Whether line `i` violates the rule: the rule does not pass over it and it
/// has more characters than allowed.
pub open spec fn violates(config: Md013Config, lines: Seq<MarkedModel>, i: int) -> bool {
    !is_exempt(config, lines, i) && lines[i].text.len() > config.line_length
}

/// The violation that line `i` is.
pub open spec fn violation_at(config: Md013Config, lines: Seq<MarkedModel>, i: int) -> ViolationModel {
    ViolationModel {
        line_number: (i + 1) as usize,
        actual_length: lines[i].text.len() as usize,
        expected_length: config.line_length,
        line_content: lines[i].text,
    }
}

/// The violations among the first `n` lines, in the order of the lines.
pub open spec fn violations_in(config: Md013Config, lines: Seq<MarkedModel>, n: int) -> Seq<
    ViolationModel,
>
    decreases n,
{
    if n <= 0 {
        Seq::empty()
    } else if violates(config, lines, n - 1) {
        violations_in(config, lines, n - 1).push(violation_at(config, lines, n - 1))
    } else {
        violations_in(config, lines, n - 1)
    }
}

/// The lines that stand for line `i` in the fixed text: the line itself
/// unless it violates the rule, else what it is rewrapped to.
pub open spec fn fix_at(config: Md013Config, lines: Seq<MarkedModel>, i: int) -> Seq<Seq<char>> {
    if violates(config, lines, i) {
        rewrapped(lines[i].text, config.line_length)
    } else {
        seq![lines[i].text]
    }
}

/// The lines of the fixed text that stand for the first `n` lines.
pub open spec fn fixed_lines(config: Md013Config, lines: Seq<MarkedModel>, n: int) -> Seq<
    Seq<char>,
>
    decreases n,
{
    if n <= 0 {
        Seq::empty()
    } else {
        fixed_lines(config, lines, n - 1) + fix_at(config, lines, n - 1)
    }
}

/// Finds the violations among marked lines; see [`violations_in`].
pub fn scan_lines(config: &Md013Config, lines: &Vec<MarkedLine>) -> (violations: Vec<Violation>)
    ensures
        violation_models(violations@) == violations_in(
            *config,
            marked_models(lines@),
            lines@.len() as int,
        ),
{
    let ghost model = marked_models(lines@);
    let mut violations: Vec<Violation> = Vec::new();
    let mut in_block = false;
    let mut i: usize = 0;
    while i < lines.len()
        invariant
            i <= lines.len(),
            model == marked_models(lines@),
            in_block == in_code_block(model, i as int),
            violation_models(violations@) == violations_in(*config, model, i as int),
        decreases lines.len() - i,
    {
        let line = &lines[i];
        let exempt = line.is_fence || (in_block && !config.code_blocks) || (line.is_table
            && !config.tables);
        if line.is_fence {
            in_block = !in_block;
        }
        if !exempt && line.text.len() > config.line_length {
            violations.push(
                Violation {
                    line_number: i + 1,
                    actual_length: line.text.len(),
                    expected_length: config.line_length,
                    line_content: string_of(&line.text),
                },
            );
        }
        i += 1;
    }
    violations
}

/// Rewraps the marked lines that violate the rule; see [`fixed_lines`].
pub fn fix_lines(config: &Md013Config, lines: &Vec<MarkedLine>) -> (fixed: Vec<Vec<char>>)
    ensures
        line_models(fixed@) == fixed_lines(*config, marked_models(lines@), lines@.len() as int),
{
    let ghost model = marked_models(lines@);
    let mut fixed: Vec<Vec<char>> = Vec::new();
    let mut in_block = false;
    let mut i: usize = 0;
    while i < lines.len()
        invariant
            i <= lines.len(),
            model == marked_models(lines@),
            in_block == in_code_block(model, i as int),
            line_models(fixed@) == fixed_lines(*config, model, i as int),
        decreases lines.len() - i,
    {
        let line = &lines[i];
        let exempt = line.is_fence || (in_block && !config.code_blocks) || (line.is_table
            && !config.tables);
        if line.is_fence {
            in_block = !in_block;
        }
        if !exempt && line.text.len() > config.line_length {
            push_rewrapped(&mut fixed, &line.text, config.line_length);
        } else {
            let copy = slice_of(&line.text, 0, line.text.len());
            assert(copy@ =~= line.text@);
            fixed.push(copy);
        }
        i += 1;
    }
    fixed
}

/// A linter for the line-length rule.
pub struct Md013Linter {
    config: Md013Config,
    code_block_regex: regex::Regex,
    table_regex: regex::Regex,
}

impl Md013Linter {
    /// The settings that the linter runs with.
    pub closed spec fn settings(&self) -> Md013Config {
        self.config
    }

    /// The expression by which the linter knows a fence line.
    pub closed spec fn fence_expression(&self) -> regex::Regex {
        self.code_block_regex
    }

    /// The expression by which the linter knows a table row.
    pub closed spec fn table_expression(&self) -> regex::Regex {
        self.table_regex
    }

    /// A line as the linter marks it: a fence line where the fence expression
    /// matches in it, a table row where the table expression does.
    pub open spec fn marked(&self, line: Seq<char>) -> MarkedModel {
        MarkedModel {
            text: line,
            is_fence: matches_in(self.fence_expression(), line),
            is_table: matches_in(self.table_expression(), line),
        }
    }

    /// The lines of a text as the linter marks them.
    pub open spec fn marked_lines(&self, content: Seq<char>) -> Seq<MarkedModel> {
        Seq::new(lines_of(content).len(), |i: int| self.marked(lines_of(content)[i]))
    }

    /// A linter with the given settings, or `None` where the `regex` crate
    /// refuses one of the linter's two patterns.
    pub fn new(config: Md013Config) -> (r: Option<Md013Linter>)
        ensures
            r is Some <==> compiled(fence_pattern()) is Some && compiled(table_pattern()) is Some,
            r is Some ==> r->0.settings() == config && Some(r->0.fence_expression()) == compiled(
                fence_pattern(),
            ) && Some(r->0.table_expression()) == compiled(table_pattern()),
    {
        match compile("^```") {
            Some(code_block_regex) => match compile("^\\|.*\\|") {
                Some(table_regex) => Some(Md013Linter { config, code_block_regex, table_regex }),
                None => None,
            },
            None => None,
        }
    }

    /// Splits a text into lines and marks each line.
    fn mark(&self, content: &str) -> (lines: Vec<MarkedLine>)
        ensures
            marked_models(lines@) == self.marked_lines(content@),
            lines@.len() == lines_of(content@).len(),
    {
        let chars = chars_of(content);
        let mut texts = split_lines(&chars);
        let ghost all = lines_of(content@);
        let n = texts.len();
        let mut lines: Vec<MarkedLine> = Vec::new();
        let mut i: usize = 0;
        while i < n
            invariant
                i <= n,
                n == texts@.len(),
                n == all.len(),
                all == lines_of(content@),
                forall|k: int| i <= k < n ==> (#[trigger] texts@[k])@ == all[k],
                lines@.len() == i,
                forall|k: int| 0 <= k < i ==> (#[trigger] lines@[k])@ == self.marked(all[k]),
            decreases n - i,
        {
            let mut text: Vec<char> = Vec::new();
            std::mem::swap(&mut texts[i], &mut text);
            let shown = string_of(&text);
            let is_fence = is_match(&self.code_block_regex, shown.as_str());
            let is_table = is_match(&self.table_regex, shown.as_str());
            lines.push(MarkedLine { text, is_fence, is_table });
            i += 1;
        }
        lines
    }

    /// Finds the lines of `content` that violate the rule: what
    /// [`violations_in`] gives for the lines of the text as the linter marks
    /// them.
    pub fn check_content(&self, content: &str) -> (violations: Vec<Violation>)
        ensures
            violation_models(violations@) == violations_in(
                self.settings(),
                self.marked_lines(content@),
                lines_of(content@).len() as int,
            ),
    {
        let lines = self.mark(content);
        scan_lines(&self.config, &lines)
    }

    /// Rewraps the lines of `content` that violate the rule and joins the
    /// lines again: what [`fixed_lines`] gives for the lines of the text as
    /// the linter marks them, joined by line feeds.
    pub fn fix_content(&self, content: &str) -> (fixed: String)
        ensures
            fixed@ == joined(
                fixed_lines(
                    self.settings(),
                    self.marked_lines(content@),
                    lines_of(content@).len() as int,
                ),
            ),
    {
        let lines = self.mark(content);
        let fixed = fix_lines(&self.config, &lines);
        let text = join_lines(&fixed);
        string_of(&text)
    }

    /// Writes one report line for each violation; see [`report`].
    pub fn format_violations(&self, violations: &Vec<Violation>, file_path: &str) -> (output:
        String)
        ensures
            output@ == report(
                file_path@,
                violation_models(violations@),
                violations@.len() as int,
            ),
    {
        let mut output = String::new();
        let mut i: usize = 0;
        while i < violations.len()
            invariant
                i <= violations.len(),
                output@ == report(file_path@, violation_models(violations@), i as int),
            decreases violations.len() - i,
        {
            let violation = &violations[i];
            output.append(file_path);
            output.append(":");
            output.append(number_text(violation.line_number).as_str());
            output.append(" MD013/line-length Line length [Expected: ");
            output.append(number_text(violation.expected_length).as_str());
            output.append("; Actual: ");
            output.append(number_text(violation.actual_length).as_str());
            output.append("]\n");
            i += 1;
        }
        output
    }
}

} // verus!
