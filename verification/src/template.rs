//! Prompt templates: text with `{{ .Field }}`, `{{ printf ".." .Field }}` and comment
//! actions.

use vstd::prelude::*;

use crate::text::{self, same};

verus! {

// ---------------------------------------------------------------------------
// Validation
// ---------------------------------------------------------------------------

/// What is wrong with a template.
#[derive(Debug, Clone, Copy, PartialEq, Eq, Structural)]
pub enum TemplateFault {
    UnclosedAction,
    EmptyAction,
    UnexpectedEnd,
    UnexpectedElse,
    UnexpectedClose,
    UnclosedControl,
}

/// The word that opens an action.
pub open spec fn keyword(action: Seq<char>) -> Seq<char> {
    let words = text::words_spec(action);
    if words.len() > 0 {
        words[0]
    } else {
        Seq::empty()
    }
}

pub open spec fn opens_control(word: Seq<char>) -> bool {
    word == "if"@ || word == "range"@ || word == "with"@ || word == "define"@ || word == "block"@
}

/// What is wrong with `s`, with `depth` control actions open before it.
pub open spec fn template_fault(s: Seq<char>, depth: nat) -> Option<TemplateFault>
    decreases s.len(),
{
    match text::found(s, "{{"@) {
        None => if text::occurs(s, "}}"@) {
            Some(TemplateFault::UnexpectedClose)
        } else if depth > 0 {
            Some(TemplateFault::UnclosedControl)
        } else {
            None
        },
        Some(open) => if open < 0 || open + 2 > s.len() {
            None
        } else {
            let after = s.subrange(open + 2, s.len() as int);
            match text::found(after, "}}"@) {
                None => Some(TemplateFault::UnclosedAction),
                Some(close) => if close < 0 || close + 2 > after.len() {
                    None
                } else {
                    let action = text::trimmed(after.subrange(0, close));
                    let rest = after.subrange(close + 2, after.len() as int);
                    let word = keyword(action);
                    if action.len() == 0 {
                        Some(TemplateFault::EmptyAction)
                    } else if opens_control(word) {
                        template_fault(rest, depth + 1)
                    } else if word == "end"@ {
                        if depth == 0 {
                            Some(TemplateFault::UnexpectedEnd)
                        } else {
                            template_fault(rest, (depth - 1) as nat)
                        }
                    } else if word == "else"@ && depth == 0 {
                        Some(TemplateFault::UnexpectedElse)
                    } else {
                        template_fault(rest, depth)
                    }
                },
            }
        },
    }
}

fn keyword_of(action: &str) -> (word: String)
    ensures
        word@ == keyword(action@),
{
    let words: Vec<String> = text::words(action);
    if words.len() > 0 {
        assert(text::texts(words@)[0] == words@[0]@);
        words[0].clone()
    } else {
        let none: String = String::new();
        assert(none@ =~= Seq::<char>::empty());
        none
    }
}

fn is_control(word: &str) -> (r: bool)
    ensures
        r == opens_control(word@),
{
    same(word, "if") || same(word, "range") || same(word, "with") || same(word, "define") || same(
        word,
        "block",
    )
}

/// Check that actions are closed and that controls balance.
pub fn validate_template(template: &str) -> (r: Result<(), TemplateFault>)
    ensures
        match r {
            Ok(_) => template_fault(template@, 0) is None,
            Err(fault) => template_fault(template@, 0) == Some(fault),
        },
{
    proof {
        reveal_strlit("{{");
        reveal_strlit("}}");
    }
    let whole: Vec<char> = text::chars_of(template);
    let mut remainder: String = template.to_owned();
    let mut depth: usize = 0;
    loop
        invariant
            whole@ == template@,
            depth + remainder@.len() <= whole.len(),
            "{{"@.len() == 2,
            "}}"@.len() == 2,
            template_fault(remainder@, depth as nat) == template_fault(template@, 0),
        decreases remainder@.len(),
    {
        match text::find(remainder.as_str(), "{{") {
            None => {
                if text::contains(remainder.as_str(), "}}") {
                    return Err(TemplateFault::UnexpectedClose);
                }
                if depth > 0 {
                    return Err(TemplateFault::UnclosedControl);
                }
                return Ok(());
            },
            Some(open) => {
                let after: String = text::suffix_from(remainder.as_str(), open + 2);
                match text::find(after.as_str(), "}}") {
                    None => {
                        return Err(TemplateFault::UnclosedAction);
                    },
                    Some(close) => {
                        let action: String = text::trim(
                            text::prefix_to(after.as_str(), close).as_str(),
                        );
                        if action.as_str().unicode_len() == 0 {
                            return Err(TemplateFault::EmptyAction);
                        }
                        let rest: String = text::suffix_from(after.as_str(), close + 2);
                        let word: String = keyword_of(action.as_str());
                        if is_control(word.as_str()) {
                            depth = depth + 1;
                        } else if same(word.as_str(), "end") {
                            if depth == 0 {
                                return Err(TemplateFault::UnexpectedEnd);
                            }
                            depth = depth - 1;
                        } else if same(word.as_str(), "else") && depth == 0 {
                            return Err(TemplateFault::UnexpectedElse);
                        }
                        remainder = rest;
                    },
                }
            },
        }
    }
}

// ---------------------------------------------------------------------------
// Rendering
// ---------------------------------------------------------------------------

/// A template that asks for something that cannot be rendered.
#[derive(Debug, Clone, Copy, PartialEq, Eq, Structural)]
pub enum RenderFault {
    UnclosedAction,
    UnsupportedAction,
}

/// The names and values that a template may refer to.
pub open spec fn bindings(values: Seq<(&str, &str)>) -> Seq<(Seq<char>, Seq<char>)> {
    Seq::new(values.len(), |i: int| (values[i].0@, values[i].1@))
}

/// The value of the first binding of `name` from `i` on.
pub open spec fn bound_from(
    bound: Seq<(Seq<char>, Seq<char>)>,
    name: Seq<char>,
    i: int,
) -> Option<Seq<char>>
    decreases bound.len() - i,
{
    if i < 0 || i >= bound.len() {
        None
    } else if bound[i].0 == name {
        Some(bound[i].1)
    } else {
        bound_from(bound, name, i + 1)
    }
}

/// The value that `.Name` refers to.
pub open spec fn field_value(
    bound: Seq<(Seq<char>, Seq<char>)>,
    operand: Seq<char>,
) -> Option<Seq<char>> {
    if operand.len() > 0 && operand[0] == '.' {
        bound_from(bound, operand.subrange(1, operand.len() as int), 0)
    } else {
        None
    }
}

/// `format` from `i` on with `%s` and `%v` standing for the operands from `k` on.
pub open spec fn formatted(
    format: Seq<char>,
    i: int,
    operands: Seq<Seq<char>>,
    k: int,
    bound: Seq<(Seq<char>, Seq<char>)>,
) -> Option<Seq<char>>
    decreases format.len() - i,
{
    if i < 0 || i >= format.len() {
        if k == operands.len() {
            Some(Seq::empty())
        } else {
            None
        }
    } else if format[i] != '%' {
        match formatted(format, i + 1, operands, k, bound) {
            Some(rest) => Some(seq![format[i]] + rest),
            None => None,
        }
    } else if i + 1 < format.len() && format[i + 1] == '%' {
        match formatted(format, i + 2, operands, k, bound) {
            Some(rest) => Some(seq!['%'] + rest),
            None => None,
        }
    } else if i + 1 < format.len() && (format[i + 1] == 's' || format[i + 1] == 'v') && 0 <= k
        < operands.len() {
        match field_value(bound, operands[k]) {
            Some(value) => match formatted(format, i + 2, operands, k + 1, bound) {
                Some(rest) => Some(value + rest),
                None => None,
            },
            None => None,
        }
    } else {
        None
    }
}

/// What `printf` makes of its quoted format and its operands.
pub open spec fn printed(
    arguments: Seq<char>,
    bound: Seq<(Seq<char>, Seq<char>)>,
) -> Option<Seq<char>> {
    if arguments.len() == 0 || arguments[0] != '"' {
        None
    } else {
        let quoted = arguments.subrange(1, arguments.len() as int);
        match text::found(quoted, "\""@) {
            None => None,
            Some(close) => if close < 0 || close + 1 > quoted.len() {
                None
            } else {
                formatted(
                    quoted.subrange(0, close),
                    0,
                    text::words_spec(quoted.subrange(close + 1, quoted.len() as int)),
                    0,
                    bound,
                )
            },
        }
    }
}

/// What one action is replaced by.
pub open spec fn action_text(
    action: Seq<char>,
    bound: Seq<(Seq<char>, Seq<char>)>,
) -> Option<Seq<char>> {
    if action.len() >= 4 && "/*"@.is_prefix_of(action) && "*/"@.is_suffix_of(action) {
        Some(Seq::empty())
    } else if "printf "@.is_prefix_of(action) {
        printed(text::trimmed(action.subrange(7, action.len() as int)), bound)
    } else {
        field_value(bound, action)
    }
}

/// `s` with every action replaced. A value that is put in is not read again.
pub open spec fn rendered(
    s: Seq<char>,
    bound: Seq<(Seq<char>, Seq<char>)>,
) -> Result<Seq<char>, RenderFault>
    decreases s.len(),
{
    match text::found(s, "{{"@) {
        None => Ok(s),
        Some(open) => if open < 0 || open + 2 > s.len() {
            Ok(s)
        } else {
            let after = s.subrange(open + 2, s.len() as int);
            match text::found(after, "}}"@) {
                None => Err(RenderFault::UnclosedAction),
                Some(close) => if close < 0 || close + 2 > after.len() {
                    Ok(s)
                } else {
                    match action_text(text::trimmed(after.subrange(0, close)), bound) {
                        None => Err(RenderFault::UnsupportedAction),
                        Some(value) => match rendered(
                            after.subrange(close + 2, after.len() as int),
                            bound,
                        ) {
                            Ok(rest) => Ok(s.subrange(0, open) + value + rest),
                            Err(fault) => Err(fault),
                        },
                    }
                },
            }
        },
    }
}

fn look_up(values: &Vec<(&str, &str)>, operand: &str) -> (r: Option<String>)
    ensures
        text::viewed(r) == field_value(bindings(values@), operand@),
{
    let chars: Vec<char> = text::chars_of(operand);
    if chars.len() == 0 || chars[0] != '.' {
        return None;
    }
    let name: String = text::string_of(&chars, 1, chars.len());
    let ghost bound = bindings(values@);
    let mut i: usize = 0;
    while i < values.len()
        invariant
            i <= values.len(),
            bound == bindings(values@),
            operand@.len() > 0,
            operand@[0] == '.',
            name@ == operand@.subrange(1, operand@.len() as int),
            bound_from(bound, name@, i as int) == bound_from(bound, name@, 0),
        decreases values.len() - i,
    {
        let (known, value): (&str, &str) = values[i];
        assert(bound[i as int] == (known@, value@));
        if same(known, name.as_str()) {
            return Some(value.to_owned());
        }
        i = i + 1;
    }
    None
}

fn format_operands(
    format: &str,
    operands: &Vec<String>,
    values: &Vec<(&str, &str)>,
) -> (r: Option<String>)
    ensures
        text::viewed(r) == formatted(
            format@,
            0,
            text::texts(operands@),
            0,
            bindings(values@),
        ),
{
    let chars: Vec<char> = text::chars_of(format);
    let ghost names = text::texts(operands@);
    let ghost bound = bindings(values@);
    let ghost whole = formatted(format@, 0, names, 0, bound);
    let mut out: String = String::new();
    let mut i: usize = 0;
    let mut k: usize = 0;
    while i < chars.len()
        invariant
            i <= chars.len(),
            k <= operands.len(),
            chars@ == format@,
            names == text::texts(operands@),
            bound == bindings(values@),
            whole == formatted(format@, 0, names, 0, bound),
            match formatted(format@, i as int, names, k as int, bound) {
                Some(rest) => whole == Some(out@ + rest),
                None => whole is None,
            },
        decreases chars.len() - i,
    {
        let ghost before = out@;
        let ghost rest = formatted(format@, i as int, names, k as int, bound);
        let c: char = chars[i];
        if c != '%' {
            out.push(c);
            i = i + 1;
        } else if i + 1 < chars.len() && chars[i + 1] == '%' {
            out.push('%');
            i = i + 2;
        } else if i + 1 < chars.len() && (chars[i + 1] == 's' || chars[i + 1] == 'v') && k
            < operands.len() {
            assert(names[k as int] == operands@[k as int]@);
            match look_up(values, operands[k].as_str()) {
                Some(value) => {
                    out.append(value.as_str());
                },
                None => {
                    return None;
                },
            }
            i = i + 2;
            k = k + 1;
        } else {
            return None;
        }
        proof {
            match formatted(format@, i as int, names, k as int, bound) {
                Some(tail) => {
                    assert(out@ + tail =~= before + rest->0);
                },
                None => {},
            }
        }
    }
    if k == operands.len() {
        assert(out@ + Seq::<char>::empty() =~= out@);
        Some(out)
    } else {
        None
    }
}

fn print_operands(arguments: &str, values: &Vec<(&str, &str)>) -> (r: Option<String>)
    ensures
        text::viewed(r) == printed(arguments@, bindings(values@)),
{
    proof {
        reveal_strlit("\"");
    }
    let chars: Vec<char> = text::chars_of(arguments);
    if chars.len() == 0 || chars[0] != '"' {
        return None;
    }
    let quoted: String = text::string_of(&chars, 1, chars.len());
    match text::find(quoted.as_str(), "\"") {
        None => None,
        Some(close) => {
            let format: String = text::prefix_to(quoted.as_str(), close);
            let operands: Vec<String> = text::words(
                text::suffix_from(quoted.as_str(), close + 1).as_str(),
            );
            format_operands(format.as_str(), &operands, values)
        },
    }
}

fn render_action(action: &str, values: &Vec<(&str, &str)>) -> (r: Option<String>)
    ensures
        text::viewed(r) == action_text(action@, bindings(values@)),
{
    proof {
        reveal_strlit("printf ");
    }
    let chars: Vec<char> = text::chars_of(action);
    if chars.len() >= 4 && text::starts_with(action, "/*") && text::ends_with(action, "*/") {
        let none: String = String::new();
        assert(none@ =~= Seq::<char>::empty());
        return Some(none);
    }
    if text::starts_with(action, "printf ") {
        let arguments: String = text::trim(text::suffix_from(action, 7).as_str());
        return print_operands(arguments.as_str(), values);
    }
    look_up(values, action)
}

/// `template` with every action replaced by what it stands for.
pub fn render_template(template: &str, values: &Vec<(&str, &str)>) -> (r: Result<
    String,
    RenderFault,
>)
    ensures
        match r {
            Ok(out) => rendered(template@, bindings(values@)) == Ok::<Seq<char>, RenderFault>(out@),
            Err(fault) => rendered(template@, bindings(values@)) == Err::<Seq<char>, RenderFault>(
                fault,
            ),
        },
{
    proof {
        reveal_strlit("{{");
        reveal_strlit("}}");
    }
    let ghost bound = bindings(values@);
    let ghost whole = rendered(template@, bound);
    let size: Vec<char> = text::chars_of(template);
    let mut remainder: String = template.to_owned();
    let mut out: String = String::new();
    assert(out@ + template@ =~= template@);
    proof {
        match whole {
            Ok(rest) => {
                assert(out@ + rest =~= rest);
            },
            Err(_) => {},
        }
    }
    loop
        invariant
            remainder@.len() <= size.len(),
            "{{"@.len() == 2,
            "}}"@.len() == 2,
            bound == bindings(values@),
            whole == rendered(template@, bound),
            match rendered(remainder@, bound) {
                Ok(rest) => whole == Ok::<Seq<char>, RenderFault>(out@ + rest),
                Err(fault) => whole == Err::<Seq<char>, RenderFault>(fault),
            },
        decreases remainder@.len(),
    {
        let ghost before = out@;
        let ghost now = rendered(remainder@, bound);
        match text::find(remainder.as_str(), "{{") {
            None => {
                out.append(remainder.as_str());
                return Ok(out);
            },
            Some(open) => {
                let after: String = text::suffix_from(remainder.as_str(), open + 2);
                match text::find(after.as_str(), "}}") {
                    None => {
                        return Err(RenderFault::UnclosedAction);
                    },
                    Some(close) => {
                        let action: String = text::trim(
                            text::prefix_to(after.as_str(), close).as_str(),
                        );
                        let value: String = match render_action(action.as_str(), values) {
                            Some(value) => value,
                            None => {
                                return Err(RenderFault::UnsupportedAction);
                            },
                        };
                        let head: String = text::prefix_to(remainder.as_str(), open);
                        out.append(head.as_str());
                        out.append(value.as_str());
                        remainder = text::suffix_from(after.as_str(), close + 2);
                        proof {
                            match rendered(remainder@, bound) {
                                Ok(rest) => {
                                    assert(out@ + rest =~= before + now->Ok_0);
                                },
                                Err(_) => {},
                            }
                        }
                    },
                }
            },
        }
    }
}

} // verus!
