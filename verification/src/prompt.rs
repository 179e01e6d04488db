//! Prompt templates with one variable.
//!
//! A template is plain text in which `{input}` stands for the caller's input.
//! A literal brace is written twice: `{{` for `{` and `}}` for `}`. Every other
//! use of a brace is an error: a placeholder that names another variable, an
//! opening brace that is never closed, a closing brace that closes nothing.

use crate::text::{chars_of, matches_at};
use vstd::prelude::*;

verus! {

/// The one variable that a template may name.
pub const VARIABLE: &'static str = "input";

/// Why a template could not be formatted.
#[derive(Debug, Clone, PartialEq, Eq)]
pub enum TemplateError {
    /// A placeholder names a variable that has no value; carries the name.
    MissingVariable(String),
    /// An opening brace starts a placeholder that is never closed.
    UnclosedPlaceholder,
    /// A closing brace stands alone.
    StrayClosingBrace,
}

/// The mathematical model of a [`TemplateError`].
pub enum TemplateErrorView {
    MissingVariable(Seq<char>),
    UnclosedPlaceholder,
    StrayClosingBrace,
}

impl View for TemplateError {
    type V = TemplateErrorView;

    open spec fn view(&self) -> TemplateErrorView {
        match self {
            TemplateError::MissingVariable(name) => TemplateErrorView::MissingVariable(name@),
            TemplateError::UnclosedPlaceholder => TemplateErrorView::UnclosedPlaceholder,
            TemplateError::StrayClosingBrace => TemplateErrorView::StrayClosingBrace,
        }
    }
}

/// The outcome of formatting, over models.
pub type Rendering = Result<Seq<char>, TemplateErrorView>;

/// `piece` followed by what `rest` renders to; an error in `rest` stays that error.
pub open spec fn prepend(piece: Seq<char>, rest: Rendering) -> Rendering {
    match rest {
        Ok(text) => Ok(piece + text),
        Err(error) => Err(error),
    }
}

/// The position of the first `}` at or after `from`, or the template's length
/// where there is none.
pub open spec fn find_close(template: Seq<char>, from: int) -> int
    decreases template.len() - from,
{
    if from < 0 || from >= template.len() {
        template.len() as int
    } else if template[from] == '}' {
        from
    } else {
        find_close(template, from + 1)
    }
}

/// The first `}` at or after `from` lies at or after `from`, and no `}` lies
/// between the two.
pub proof fn lemma_find_close_bounds(template: Seq<char>, from: int)
    requires
        0 <= from <= template.len(),
    ensures
        from <= find_close(template, from) <= template.len(),
        find_close(template, from) < template.len() ==> template[find_close(template, from)]
            == '}',
        forall|j: int| from <= j < find_close(template, from) ==> template[j] != '}',
    decreases template.len() - from,
{
    if from < template.len() && template[from] != '}' {
        lemma_find_close_bounds(template, from + 1);
    }
}

/// What the template renders to from position `at` on, read from left to right.
pub open spec fn render_from(template: Seq<char>, input: Seq<char>, at: int) -> Rendering
    decreases template.len() - at,
{
    if at < 0 || at >= template.len() {
        Ok(Seq::empty())
    } else if template[at] == '{' {
        if at + 1 < template.len() && template[at + 1] == '{' {
            prepend(seq!['{'], render_from(template, input, at + 2))
        } else {
            let close = find_close(template, at + 1);
            if close >= template.len() {
                Err(TemplateErrorView::UnclosedPlaceholder)
            } else if template.subrange(at + 1, close) == VARIABLE@ {
                proof {
                    lemma_find_close_bounds(template, at + 1);
                }
                prepend(input, render_from(template, input, close + 1))
            } else {
                Err(TemplateErrorView::MissingVariable(template.subrange(at + 1, close)))
            }
        }
    } else if template[at] == '}' {
        if at + 1 < template.len() && template[at + 1] == '}' {
            prepend(seq!['}'], render_from(template, input, at + 2))
        } else {
            Err(TemplateErrorView::StrayClosingBrace)
        }
    } else {
        prepend(seq![template[at]], render_from(template, input, at + 1))
    }
}

/// What a template renders to for a given input: the text with every
/// placeholder replaced and every doubled brace halved, or the first error met.
pub open spec fn render(template: Seq<char>, input: Seq<char>) -> Rendering {
    render_from(template, input, 0)
}

/// The model of a formatting result.
pub open spec fn rendering_view(result: Result<String, TemplateError>) -> Rendering {
    match result {
        Ok(text) => Ok(text@),
        Err(error) => Err(error@),
    }
}

/// No character of `template` in `from..to` is a brace.
pub open spec fn brace_free(template: Seq<char>, from: int, to: int) -> bool {
    forall|j: int| from <= j < to ==> template[j] != '{' && template[j] != '}'
}

/// Laying two pieces before a rendering, one after the other, is laying their
/// concatenation before it.
pub proof fn lemma_prepend_twice(first: Seq<char>, second: Seq<char>, rest: Rendering)
    ensures
        prepend(first, prepend(second, rest)) == prepend(first + second, rest),
{
    if let Ok(text) = rest {
        assert(first + (second + text) =~= (first + second) + text);
    }
}

/// Laying nothing before a rendering leaves it as it is.
pub proof fn lemma_prepend_nothing(rest: Rendering)
    ensures
        prepend(Seq::empty(), rest) == rest,
{
    if let Ok(text) = rest {
        assert(Seq::<char>::empty() + text =~= text);
    }
}

/// A run of characters without braces renders to itself.
pub proof fn lemma_literal_run(template: Seq<char>, input: Seq<char>, from: int, to: int)
    requires
        0 <= from <= to <= template.len(),
        brace_free(template, from, to),
    ensures
        render_from(template, input, from) == prepend(
            template.subrange(from, to),
            render_from(template, input, to),
        ),
    decreases to - from,
{
    let rest = render_from(template, input, to);
    if from == to {
        assert(template.subrange(from, to) =~= Seq::<char>::empty());
        lemma_prepend_nothing(rest);
    } else {
        lemma_literal_run(template, input, from + 1, to);
        lemma_prepend_twice(seq![template[from]], template.subrange(from + 1, to), rest);
        assert(seq![template[from]] + template.subrange(from + 1, to) =~= template.subrange(
            from,
            to,
        ));
    }
}

/// Finds the first `}` at or after `from`.
fn scan_to_close(chars: &Vec<char>, from: usize) -> (close: usize)
    requires
        from <= chars.len(),
    ensures
        close == find_close(chars@, from as int),
        from <= close <= chars.len(),
{
    let mut at: usize = from;
    while at < chars.len() && chars[at] != '}'
        invariant
            from <= at <= chars.len(),
            find_close(chars@, from as int) == find_close(chars@, at as int),
        decreases chars.len() - at,
    {
        at += 1;
    }
    at
}

/// Formats a template: every `{input}` is replaced by `input`, `{{` and `}}`
/// stand for one brace each, and all other text is kept as it is. The input is
/// not read as a template. The first misuse of a brace, from the left, is the
/// error that comes back.
pub fn format_prompt(template: &str, input: &str) -> (result: Result<String, TemplateError>)
    ensures
        rendering_view(result) == render(template@, input@),
{
    let chars = chars_of(template);
    let variable = chars_of(VARIABLE);
    let n = chars.len();
    let ghost t = template@;
    let mut out = String::new();
    let mut run_start: usize = 0;
    let mut at: usize = 0;
    proof {
        lemma_prepend_nothing(render_from(t, input@, 0));
    }
    while at < n
        invariant
            chars@ == t,
            t == template@,
            variable@ == VARIABLE@,
            n == chars.len(),
            run_start <= at <= n,
            brace_free(t, run_start as int, at as int),
            render(t, input@) == prepend(out@, render_from(t, input@, run_start as int)),
        decreases n - at,
    {
        let c = chars[at];
        if c != '{' && c != '}' {
            at += 1;
            continue ;
        }
        let ghost before = out@;
        out.append(template.substring_char(run_start, at));
        proof {
            lemma_literal_run(t, input@, run_start as int, at as int);
            lemma_prepend_twice(
                before,
                t.subrange(run_start as int, at as int),
                render_from(t, input@, at as int),
            );
        }
        if at + 1 < n && chars[at + 1] == c {
            if c == '{' {
                out.append("{");
                proof {
                    reveal_strlit("{");
                    assert("{"@ =~= seq!['{']);
                }
            } else {
                out.append("}");
                proof {
                    reveal_strlit("}");
                    assert("}"@ =~= seq!['}']);
                }
            }
            proof {
                lemma_prepend_twice(
                    before + t.subrange(run_start as int, at as int),
                    seq![c],
                    render_from(t, input@, at + 2),
                );
            }
            at += 2;
            run_start = at;
        } else if c == '}' {
            return Err(TemplateError::StrayClosingBrace);
        } else {
            let close = scan_to_close(&chars, at + 1);
            if close >= n {
                return Err(TemplateError::UnclosedPlaceholder);
            }
            let is_variable = close - (at + 1) == variable.len() && matches_at(
                &chars,
                &variable,
                at + 1,
            );
            if !is_variable {
                let name = template.substring_char(at + 1, close).to_string();
                return Err(TemplateError::MissingVariable(name));
            }
            out.append(input);
            proof {
                lemma_prepend_twice(
                    before + t.subrange(run_start as int, at as int),
                    input@,
                    render_from(t, input@, close + 1),
                );
            }
            at = close + 1;
            run_start = at;
        }
    }
    let ghost before = out@;
    out.append(template.substring_char(run_start, n));
    proof {
        lemma_literal_run(t, input@, run_start as int, n as int);
        lemma_prepend_twice(
            before,
            t.subrange(run_start as int, n as int),
            render_from(t, input@, n as int),
        );
        assert(out@ + Seq::<char>::empty() =~= out@);
    }
    Ok(out)
}

/// The text that describes a formatting error to a person.
pub open spec fn template_error_text(error: TemplateErrorView) -> Seq<char> {
    match error {
        TemplateErrorView::MissingVariable(name) => "Variable "@ + name
            + " is missing from input variables"@,
        TemplateErrorView::UnclosedPlaceholder => "expected '}' before end of template"@,
        TemplateErrorView::StrayClosingBrace => "single '}' encountered in template"@,
    }
}

impl TemplateError {
    /// The text that describes this error to a person.
    pub fn message(&self) -> (text: String)
        ensures
            text@ == template_error_text(self@),
    {
        match self {
            TemplateError::MissingVariable(name) => "Variable ".to_string().concat(
                name.as_str(),
            ).concat(" is missing from input variables"),
            TemplateError::UnclosedPlaceholder => "expected '}' before end of template".to_string(),
            TemplateError::StrayClosingBrace => "single '}' encountered in template".to_string(),
        }
    }
}

/// A template without braces renders to itself, whatever the input.
pub proof fn lemma_plain_text_renders_to_itself(template: Seq<char>, input: Seq<char>)
    requires
        brace_free(template, 0, template.len() as int),
    ensures
        render(template, input) == Ok::<Seq<char>, TemplateErrorView>(template),
{
    lemma_literal_run(template, input, 0, template.len() as int);
    assert(template.subrange(0, template.len() as int) + Seq::<char>::empty() =~= template);
}

/// A template that is plain text, one placeholder for the variable and plain
/// text again renders to the first text, the input and the second text. The
/// input is laid in as it is, braces included.
pub proof fn lemma_single_placeholder(prefix: Seq<char>, suffix: Seq<char>, input: Seq<char>)
    requires
        brace_free(prefix, 0, prefix.len() as int),
        brace_free(suffix, 0, suffix.len() as int),
    ensures
        render(prefix + "{input}"@ + suffix, input) == Ok::<Seq<char>, TemplateErrorView>(
            prefix + input + suffix,
        ),
{
    reveal_strlit("{input}");
    reveal_strlit("input");
    let t = prefix + "{input}"@ + suffix;
    let a = prefix.len() as int;
    let n = t.len() as int;
    assert(n == a + 7 + suffix.len());
    assert forall|j: int| 0 <= j < a implies t[j] == prefix[j] by {}
    assert forall|j: int| a + 7 <= j < n implies t[j] == suffix[j - a - 7] by {}
    assert(t[a] == '{' && t[a + 1] == 'i' && t[a + 2] == 'n' && t[a + 3] == 'p' && t[a + 4] == 'u'
        && t[a + 5] == 't' && t[a + 6] == '}');
    assert(brace_free(t, 0, a));
    assert(brace_free(t, a + 7, n));
    lemma_literal_run(t, input, 0, a);
    lemma_literal_run(t, input, a + 7, n);
    lemma_find_close_bounds(t, a + 1);
    let close = find_close(t, a + 1);
    assert(close == a + 6) by {
        if close < a + 6 {
            assert(t[close] == '}');
        }
        if close > a + 6 {
            assert(t[a + 6] != '}');
        }
    }
    assert(t.subrange(a + 1, a + 6) =~= VARIABLE@);
    assert(render_from(t, input, a) == prepend(input, render_from(t, input, a + 7)));
    assert(t.subrange(0, a) =~= prefix);
    assert(t.subrange(a + 7, n) =~= suffix);
    assert(render_from(t, input, n) == Ok::<Seq<char>, TemplateErrorView>(Seq::empty()));
    assert(prefix + (input + (suffix + Seq::<char>::empty())) =~= prefix + input + suffix);
}

} // verus!
