//! What holds of templates: a field stands for its value, and everything else for itself.

use vstd::prelude::*;

use crate::services::prompts;
use crate::template::{self, RenderFault, TemplateFault};
use crate::text;

verus! {

/// Whether a text can stand before an action or as a name: it has no brace.
pub open spec fn without_braces(s: Seq<char>) -> bool {
    !s.contains('{') && !s.contains('}')
}

/// Whether a text can be the name of a field.
pub open spec fn is_name(s: Seq<char>) -> bool {
    &&& s.len() > 0
    &&& without_braces(s)
    &&& forall|i: int| 0 <= i < s.len() ==> !text::is_white(#[trigger] s[i])
}

/// A text without actions is rendered as it is.
pub proof fn lemma_plain_text_is_rendered_as_it_is(
    s: Seq<char>,
    bound: Seq<(Seq<char>, Seq<char>)>,
)
    requires
        without_braces(s),
    ensures
        template::rendered(s, bound) == Ok::<Seq<char>, RenderFault>(s),
{
    reveal_strlit("{{");
    if text::occurs(s, "{{"@) {
        let k = choose|k: int| text::matches_at(s, "{{"@, k);
        assert(s.subrange(k, k + 2)[0] == '{');
        assert(s.contains(s[k]));
    }
}

/// A field is replaced by its value, the text before it stays, and the rest is rendered on
/// its own; a field that is not bound is a fault.
pub proof fn lemma_fields_are_replaced(
    before: Seq<char>,
    name: Seq<char>,
    rest: Seq<char>,
    bound: Seq<(Seq<char>, Seq<char>)>,
)
    requires
        without_braces(before),
        is_name(name),
    ensures
        ({
            let all = before + "{{"@ + " ."@ + name + " "@ + "}}"@ + rest;
            let value = template::bound_from(bound, name, 0);
            &&& value is None ==> template::rendered(all, bound) == Err::<Seq<char>, RenderFault>(
                RenderFault::UnsupportedAction,
            )
            &&& value is Some ==> match template::rendered(rest, bound) {
                Ok(tail) => template::rendered(all, bound) == Ok::<Seq<char>, RenderFault>(
                    before + value->0 + tail,
                ),
                Err(fault) => template::rendered(all, bound) == Err::<Seq<char>, RenderFault>(
                    fault,
                ),
            }
        }),
{
    reveal_strlit("{{");
    reveal_strlit("}}");
    reveal_strlit(" .");
    reveal_strlit(" ");
    reveal_strlit("/*");
    reveal_strlit("printf ");
    let all = before + "{{"@ + " ."@ + name + " "@ + "}}"@ + rest;
    let open = before.len() as int;
    assert(all.subrange(open, open + 2) =~= "{{"@);
    assert(text::matches_at(all, "{{"@, open));
    assert forall|k: int| 0 <= k < open implies !text::matches_at(all, "{{"@, k) by {
        if text::matches_at(all, "{{"@, k) {
            assert(all.subrange(k, k + 2)[0] == '{');
            assert(all[k] == before[k]);
            assert(before.contains(before[k]));
        }
    }
    text::lemma_found(all, "{{"@, open);
    let after = all.subrange(open + 2, all.len() as int);
    let padded = " ."@ + name + " "@;
    let close = padded.len() as int;
    assert(after =~= padded + "}}"@ + rest);
    assert(after.subrange(close, close + 2) =~= "}}"@);
    assert(text::matches_at(after, "}}"@, close));
    assert forall|k: int| 0 <= k < close implies !text::matches_at(after, "}}"@, k) by {
        if text::matches_at(after, "}}"@, k) {
            assert(after.subrange(k, k + 2)[0] == '}');
            assert(after[k] == padded[k]);
            if 2 <= k < 2 + name.len() {
                assert(padded[k] == name[k - 2]);
                assert(name.contains(name[k - 2]));
            }
        }
    }
    text::lemma_found(after, "}}"@, close);
    assert(after.subrange(0, close) =~= padded);
    let action = seq!['.'] + name;
    lemma_padded(name);
    assert(action[0] == '.');
    assert(!"/*"@.is_prefix_of(action)) by {
        if "/*"@.is_prefix_of(action) {
            assert(action.subrange(0, 2)[0] == '/');
        }
    }
    assert(!"printf "@.is_prefix_of(action)) by {
        if "printf "@.is_prefix_of(action) {
            assert(action.subrange(0, 7)[0] == 'p');
        }
    }
    assert(action.subrange(1, action.len() as int) =~= name);
    assert(after.subrange(close + 2, after.len() as int) =~= rest);
    assert(all.subrange(0, open) =~= before);
}

proof fn lemma_padded(name: Seq<char>)
    requires
        is_name(name),
    ensures
        text::trimmed(" ."@ + name + " "@) == seq!['.'] + name,
{
    reveal_strlit(" .");
    reveal_strlit(" ");
    let padded = " ."@ + name + " "@;
    let inner = seq!['.'] + name;
    let (a, b) = text::lemma_trimmed_shape(padded);
    assert(padded[0] == ' ' && padded[1] == '.' && padded.last() == ' ');
    assert(padded[padded.len() - 2] == name.last());
    assert(!text::is_white(name[name.len() - 1]));
    assert(!text::is_white('.'));
    assert(text::is_white(' '));
    assert(a == 1) by {
        if a > 1 {
            assert(text::is_white(padded[1]));
        }
    }
    assert(b == padded.len() - 1) by {
        if b < padded.len() - 1 {
            assert(text::is_white(padded[padded.len() - 2]));
        }
    }
    assert(padded.subrange(1, padded.len() - 1) =~= inner);
}

/// The prompts bind the history, and the language, under their own names.
pub proof fn lemma_prompts_bind_their_values(
    rest: Seq<char>,
    language: Seq<char>,
    history: Seq<char>,
)
    requires
        without_braces(rest),
    ensures
        prompts::history_prompt("{{"@ + " ."@ + "ChatHistory"@ + " "@ + "}}"@ + rest, history)
            == Ok::<Seq<char>, RenderFault>(history + rest),
        prompts::language_prompt(
            "{{"@ + " ."@ + "ChatHistory"@ + " "@ + "}}"@ + rest,
            language,
            history,
        ) == Ok::<Seq<char>, RenderFault>(history + rest),
        prompts::language_prompt(
            "{{"@ + " ."@ + "Language"@ + " "@ + "}}"@ + rest,
            language,
            history,
        ) == Ok::<Seq<char>, RenderFault>(language + rest),
{
    reveal_strlit("ChatHistory");
    reveal_strlit("Language");
    let none = Seq::<char>::empty();
    let one = seq![("ChatHistory"@, history)];
    let two = seq![("Language"@, language), ("ChatHistory"@, history)];
    assert("ChatHistory"@.len() != "Language"@.len());
    reveal_with_fuel(template::bound_from, 3);
    assert(is_name("ChatHistory"@)) by {
        lemma_letters("ChatHistory"@);
    }
    assert(is_name("Language"@)) by {
        lemma_letters("Language"@);
    }
    lemma_fields_are_replaced(none, "ChatHistory"@, rest, one);
    lemma_fields_are_replaced(none, "ChatHistory"@, rest, two);
    lemma_fields_are_replaced(none, "Language"@, rest, two);
    lemma_plain_text_is_rendered_as_it_is(rest, one);
    lemma_plain_text_is_rendered_as_it_is(rest, two);
    assert(none + "{{"@ =~= "{{"@);
    assert(none + history + rest =~= history + rest);
    assert(none + language + rest =~= language + rest);
}

proof fn lemma_letters(s: Seq<char>)
    requires
        s.len() > 0,
        forall|i: int| 0 <= i < s.len() ==> 'A' <= #[trigger] s[i] <= 'z',
    ensures
        is_name(s),
{
}

// ---------------------------------------------------------------------------
// Checks
// ---------------------------------------------------------------------------

/// A text without actions is no fault, unless something is still open.
pub proof fn lemma_plain_text_is_no_fault(s: Seq<char>, depth: nat)
    requires
        without_braces(s),
    ensures
        depth == 0 ==> template::template_fault(s, depth) is None,
        depth > 0 ==> template::template_fault(s, depth) == Some(TemplateFault::UnclosedControl),
{
    reveal_strlit("{{");
    reveal_strlit("}}");
    if text::occurs(s, "{{"@) {
        let k = choose|k: int| text::matches_at(s, "{{"@, k);
        assert(s.subrange(k, k + 2)[0] == '{');
        assert(s.contains(s[k]));
    }
    if text::occurs(s, "}}"@) {
        let k = choose|k: int| text::matches_at(s, "}}"@, k);
        assert(s.subrange(k, k + 2)[0] == '}');
        assert(s.contains(s[k]));
    }
}

/// Whether a word opens something that has to be ended.
pub open spec fn opens(word: Seq<char>) -> bool {
    seq!["if"@, "range"@, "with"@, "define"@, "block"@].contains(word)
}

proof fn lemma_opens(word: Seq<char>)
    ensures
        opens(word) <==> template::opens_control(word),
{
    let all = seq!["if"@, "range"@, "with"@, "define"@, "block"@];
    assert(all[0] == "if"@ && all[1] == "range"@ && all[2] == "with"@ && all[3] == "define"@
        && all[4] == "block"@);
    if all.contains(word) {
        let k = choose|k: int| 0 <= k < all.len() && all[k] == word;
        assert(k == 0 || k == 1 || k == 2 || k == 3 || k == 4);
    }
}

proof fn lemma_run(s: Seq<char>, i: int)
    requires
        0 <= i <= s.len(),
        forall|k: int| 0 <= k < s.len() ==> !text::is_white(#[trigger] s[k]),
    ensures
        text::run_end(s, i, true) == i,
        text::run_end(s, i, false) == s.len(),
    decreases s.len() - i,
{
    if i < s.len() {
        assert(!text::is_white(s[i]));
        lemma_run(s, i + 1);
    }
}

proof fn lemma_keyword(word: Seq<char>)
    requires
        is_name(word),
    ensures
        template::keyword(word) == word,
        text::trimmed(" "@ + word + " "@) == word,
{
    lemma_run(word, 0);
    assert(word.subrange(0, word.len() as int) =~= word);
    assert(text::words_spec(word)[0] == word);
    reveal_strlit(" ");
    let padded = " "@ + word + " "@;
    let n = padded.len() as int;
    let (a, b) = text::lemma_trimmed_shape(padded);
    assert(padded[0] == ' ' && padded[1] == word[0] && padded[n - 2] == word.last()
        && padded[n - 1] == ' ');
    assert(!text::is_white(word[0]) && !text::is_white(word[word.len() - 1]));
    assert(text::is_white(' '));
    assert(a == 1) by {
        if a > 1 {
            assert(text::is_white(padded[1]));
        }
    }
    assert(b == n - 1) by {
        if b < n - 1 {
            assert(text::is_white(padded[n - 2]));
        }
    }
    assert(padded.subrange(1, n - 1) =~= word);
}

/// Actions are checked in order: what opens has to be ended later, an end has to end
/// something, and so does an alternative; every other action leaves open what was open.
pub proof fn lemma_actions_are_checked_in_order(
    before: Seq<char>,
    word: Seq<char>,
    rest: Seq<char>,
    depth: nat,
)
    requires
        without_braces(before),
        is_name(word),
    ensures
        ({
            let all = before + "{{"@ + (" "@ + word + " "@) + "}}"@ + rest;
            let fault = template::template_fault(all, depth);
            &&& opens(word) ==> fault == template::template_fault(rest, depth + 1)
            &&& word == "end"@ && depth > 0 ==> fault == template::template_fault(
                rest,
                (depth - 1) as nat,
            )
            &&& word == "end"@ && depth == 0 ==> fault == Some(TemplateFault::UnexpectedEnd)
            &&& word == "else"@ && depth == 0 ==> fault == Some(TemplateFault::UnexpectedElse)
            &&& word == "else"@ && depth > 0 ==> fault == template::template_fault(rest, depth)
            &&& !opens(word) && word != "end"@ && word != "else"@ ==> fault
                == template::template_fault(rest, depth)
        }),
{
    reveal_strlit("{{");
    reveal_strlit("}}");
    reveal_strlit(" ");
    reveal_strlit("end");
    reveal_strlit("else");
    reveal_strlit("if");
    reveal_strlit("range");
    reveal_strlit("with");
    reveal_strlit("define");
    reveal_strlit("block");
    assert("end"@.len() == 3 && "else"@.len() == 4 && "if"@.len() == 2 && "range"@.len() == 5);
    assert("with"@.len() == 4 && "define"@.len() == 6 && "block"@.len() == 5);
    assert("else"@[0] == 'e' && "with"@[0] == 'w');
    let padded = " "@ + word + " "@;
    let all = before + "{{"@ + padded + "}}"@ + rest;
    let open = before.len() as int;
    assert(all.subrange(open, open + 2) =~= "{{"@);
    assert(text::matches_at(all, "{{"@, open));
    assert forall|k: int| 0 <= k < open implies !text::matches_at(all, "{{"@, k) by {
        if text::matches_at(all, "{{"@, k) {
            assert(all.subrange(k, k + 2)[0] == '{');
            assert(all[k] == before[k]);
            assert(before.contains(before[k]));
        }
    }
    text::lemma_found(all, "{{"@, open);
    let after = all.subrange(open + 2, all.len() as int);
    let close = padded.len() as int;
    assert(after =~= padded + "}}"@ + rest);
    assert(after.subrange(close, close + 2) =~= "}}"@);
    assert(text::matches_at(after, "}}"@, close));
    assert forall|k: int| 0 <= k < close implies !text::matches_at(after, "}}"@, k) by {
        if text::matches_at(after, "}}"@, k) {
            assert(after.subrange(k, k + 2)[0] == '}');
            assert(after[k] == padded[k]);
            if 1 <= k < 1 + word.len() {
                assert(padded[k] == word[k - 1]);
                assert(word.contains(word[k - 1]));
            }
        }
    }
    text::lemma_found(after, "}}"@, close);
    assert(after.subrange(0, close) =~= padded);
    assert(after.subrange(close + 2, after.len() as int) =~= rest);
    lemma_keyword(word);
    lemma_opens(word);
}

} // verus!
