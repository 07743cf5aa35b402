use vstd::prelude::*;
use crate::text::{blank, decimal, is_blank, join, join_parts, push_decimal, trim_owned, trimmed, views};

verus! {

/// The clause for the target language, when one is configured and not blank.
pub open spec fn language_clause(language: Option<Seq<char>>) -> Seq<Seq<char>> {
    match language {
        Some(l) => if is_blank(l) {
            Seq::empty()
        } else {
            seq!["Write the output in "@ + trimmed(l) + "."@]
        },
        None => Seq::empty(),
    }
}

/// The clause for the output length ceiling, when one is configured.
pub open spec fn length_clause(output_max_chars: Option<usize>) -> Seq<Seq<char>> {
    match output_max_chars {
        Some(n) => seq![
            "Keep the output concise and under "@ + decimal(n as nat) + " characters."@
        ],
        None => Seq::empty(),
    }
}

/// The clause for global instructions, when present and not blank.
pub open spec fn global_clause(global_prompt: Option<Seq<char>>) -> Seq<Seq<char>> {
    match global_prompt {
        Some(g) => if is_blank(g) {
            Seq::empty()
        } else {
            seq!["Global instructions: "@ + trimmed(g)]
        },
        None => Seq::empty(),
    }
}

/// The fixed role and output-format lines that open every system prompt.
pub open spec fn fixed_system_lines() -> Seq<Seq<char>> {
    seq![
        "You are a professional copy editor."@,
        "Improve the user's text according to the selected category and style."@,
        "Return ONLY the improved text. Do not add explanations, preamble, or markdown unless the input already uses markdown."@,
    ]
}

/// The lines of the system prompt, in order.
pub open spec fn system_lines(
    global_prompt: Option<Seq<char>>,
    language: Option<Seq<char>>,
    output_max_chars: Option<usize>,
) -> Seq<Seq<char>> {
    fixed_system_lines() + language_clause(language) + length_clause(output_max_chars)
        + global_clause(global_prompt)
}

/// The system prompt: its lines joined by single newlines.
pub open spec fn system_prompt_of(
    global_prompt: Option<Seq<char>>,
    language: Option<Seq<char>>,
    output_max_chars: Option<usize>,
) -> Seq<char> {
    join(system_lines(global_prompt, language, output_max_chars), "\n"@)
}

/// The view of an optional string slice.
pub open spec fn opt_view(s: Option<&str>) -> Option<Seq<char>> {
    match s {
        Some(x) => Some(x@),
        None => None,
    }
}

/// Builds the system prompt for the copy editor.
pub fn build_system_prompt(
    global_prompt: Option<&str>,
    language: Option<&str>,
    output_max_chars: Option<usize>,
) -> (r: String)
    ensures
        r@ == system_prompt_of(opt_view(global_prompt), opt_view(language), output_max_chars),
{
    let mut parts: Vec<String> = Vec::new();
    parts.push(String::from_str("You are a professional copy editor."));
    parts.push(String::from_str("Improve the user's text according to the selected category and style."));
    parts.push(String::from_str("Return ONLY the improved text. Do not add explanations, preamble, or markdown unless the input already uses markdown."));
    let ghost lines = fixed_system_lines();
    assert(views(parts@) =~= lines);

    if let Some(lang) = language {
        if !blank(lang) {
            let mut line = String::from_str("Write the output in ");
            line.append(trim_owned(lang).as_str());
            line.append(".");
            parts.push(line);
        }
    }
    proof { lines = lines + language_clause(opt_view(language)); }
    assert(views(parts@) =~= lines);

    if let Some(max_chars) = output_max_chars {
        let mut line = String::from_str("Keep the output concise and under ");
        push_decimal(&mut line, max_chars);
        line.append(" characters.");
        parts.push(line);
    }
    proof { lines = lines + length_clause(output_max_chars); }
    assert(views(parts@) =~= lines);

    if let Some(extra_prompt) = global_prompt {
        if !blank(extra_prompt) {
            let mut line = String::from_str("Global instructions: ");
            line.append(trim_owned(extra_prompt).as_str());
            parts.push(line);
        }
    }
    proof { lines = lines + global_clause(opt_view(global_prompt)); }
    assert(views(parts@) =~= lines);

    join_parts(&parts, "\n")
}

/// The paragraph for extra instructions, when they are not blank.
pub open spec fn extra_clause(extra_instructions: Seq<char>) -> Seq<Seq<char>> {
    if is_blank(extra_instructions) {
        Seq::empty()
    } else {
        seq!["Extra instructions: "@ + trimmed(extra_instructions)]
    }
}

/// The paragraphs of the user message, in order.
pub open spec fn user_paragraphs(
    category: Seq<char>,
    style: Seq<char>,
    extra_instructions: Seq<char>,
    original_text: Seq<char>,
) -> Seq<Seq<char>> {
    seq!["Category: "@ + category, "Style: "@ + style] + extra_clause(extra_instructions)
        + seq!["---"@, "Original text to optimize:"@, trimmed(original_text)]
}

/// The user message: its paragraphs joined by blank lines.
pub open spec fn user_message_of(
    category: Seq<char>,
    style: Seq<char>,
    extra_instructions: Seq<char>,
    original_text: Seq<char>,
) -> Seq<char> {
    join(user_paragraphs(category, style, extra_instructions, original_text), "\n\n"@)
}

/// Builds the user message from category, style, extra instructions and the
/// original text.
pub fn build_user_message(
    category: &str,
    style: &str,
    extra_instructions: &str,
    original_text: &str,
) -> (r: String)
    ensures
        r@ == user_message_of(category@, style@, extra_instructions@, original_text@),
{
    let mut parts: Vec<String> = Vec::new();
    let mut cat = String::from_str("Category: ");
    cat.append(category);
    parts.push(cat);
    let mut sty = String::from_str("Style: ");
    sty.append(style);
    parts.push(sty);
    if !blank(extra_instructions) {
        let mut line = String::from_str("Extra instructions: ");
        line.append(trim_owned(extra_instructions).as_str());
        parts.push(line);
    }
    parts.push(String::from_str("---"));
    parts.push(String::from_str("Original text to optimize:"));
    parts.push(trim_owned(original_text));
    assert(views(parts@) =~= user_paragraphs(category@, style@, extra_instructions@, original_text@));
    join_parts(&parts, "\n\n")
}

/// The prompt builder is a function of its arguments: equal arguments give
/// equal system prompts and equal user messages.
pub proof fn lemma_prompt_deterministic(
    g1: Option<Seq<char>>, l1: Option<Seq<char>>, n1: Option<usize>,
    g2: Option<Seq<char>>, l2: Option<Seq<char>>, n2: Option<usize>,
    c1: Seq<char>, s1: Seq<char>, e1: Seq<char>, o1: Seq<char>,
    c2: Seq<char>, s2: Seq<char>, e2: Seq<char>, o2: Seq<char>,
)
    requires
        g1 == g2, l1 == l2, n1 == n2,
        c1 == c2, s1 == s2, e1 == e2, o1 == o2,
    ensures
        system_prompt_of(g1, l1, n1) == system_prompt_of(g2, l2, n2),
        user_message_of(c1, s1, e1, o1) == user_message_of(c2, s2, e2, o2),
{
}

/// Omitting an optional setting removes exactly its own line from the system
/// prompt and leaves every other line in place: the language line stands at
/// position 3, the length line after it, the global instructions last.
pub proof fn lemma_system_prompt_omission(
    g: Option<Seq<char>>,
    l: Option<Seq<char>>,
    n: Option<usize>,
)
    ensures
        l.is_some() && !is_blank(l.unwrap()) ==>
            system_lines(g, None, n) == system_lines(g, l, n).remove(3),
        n.is_some() ==>
            system_lines(g, l, None) == system_lines(g, l, n).remove(
                3 + language_clause(l).len() as int,
            ),
        g.is_some() && !is_blank(g.unwrap()) ==>
            system_lines(None, l, n) == system_lines(g, l, n).drop_last(),
        system_lines(g, l, n).len() == 3 + language_clause(l).len()
            + length_clause(n).len() + global_clause(g).len(),
{
    let full = system_lines(g, l, n);
    if l.is_some() && !is_blank(l.unwrap()) {
        assert(system_lines(g, None, n) =~= full.remove(3));
    }
    if n.is_some() {
        assert(system_lines(g, l, None) =~= full.remove(3 + language_clause(l).len() as int));
    }
    if g.is_some() && !is_blank(g.unwrap()) {
        assert(system_lines(None, l, n) =~= full.drop_last());
    }
}

/// Omitting the extra instructions (leaving them blank) removes exactly their
/// paragraph from the user message, which otherwise stands third.
pub proof fn lemma_user_message_omission(
    category: Seq<char>,
    style: Seq<char>,
    extra_instructions: Seq<char>,
    no_extra: Seq<char>,
    original_text: Seq<char>,
)
    requires
        is_blank(no_extra),
    ensures
        !is_blank(extra_instructions) ==>
            user_paragraphs(category, style, no_extra, original_text)
                == user_paragraphs(category, style, extra_instructions, original_text).remove(2),
        user_paragraphs(category, style, extra_instructions, original_text).len()
            == 5 + extra_clause(extra_instructions).len(),
{
    if !is_blank(extra_instructions) {
        assert(user_paragraphs(category, style, no_extra, original_text)
            =~= user_paragraphs(category, style, extra_instructions, original_text).remove(2));
    }
}

} // verus!
