//! Request and reply handling for the text-summarization service.

use vstd::prelude::*;
use crate::text::{owned, push_all, push_str, string_of, trim, trimmed};

verus! {

/// One candidate of the summarizer's reply: the text of each of its parts,
/// or `None` when it carries no content.
#[derive(Debug, Clone)]
pub struct SummaryCandidate {
    pub parts: Option<Vec<Option<String>>>,
}

/// A call is refused before any request when the key is blank.
pub fn check_api_key(api_key: &str) -> (r: Result<(), String>)
    ensures
        r is Ok <==> trimmed(api_key@).len() > 0,
        r matches Err(m) ==> m@ == "missing Gemini API key"@,
{
    if trim(api_key).len() == 0 {
        return Err(owned("missing Gemini API key"));
    }
    Ok(())
}

/// The source files as a bullet list, one per line.
pub open spec fn bullet_list(items: Seq<String>) -> Seq<char>
    decreases items.len(),
{
    if items.len() == 0 {
        Seq::empty()
    } else if items.len() == 1 {
        "- "@ + items[0]@
    } else {
        bullet_list(items.drop_last()) + "\n"@ + "- "@ + items.last()@
    }
}

pub open spec fn prompt_text(source_files: Seq<String>) -> Seq<char> {
    "Summarize this ingestion batch for an Obsidian note.\nReturn exactly 3 concise bullet points (Portuguese).\nSource files:\n"@
        + bullet_list(source_files)
}

/// The prompt sent to the summarizer for a batch.
pub fn summary_prompt(source_files: &[String]) -> (r: String)
    ensures
        r@ == prompt_text(source_files@),
{
    let mut s = owned(
        "Summarize this ingestion batch for an Obsidian note.\nReturn exactly 3 concise bullet points (Portuguese).\nSource files:\n",
    );
    let ghost head = s@;
    let mut i: usize = 0;
    while i < source_files.len()
        invariant
            i <= source_files.len(),
            s@ == head + bullet_list(source_files@.take(i as int)),
        decreases source_files.len() - i,
    {
        if i > 0 {
            push_str(&mut s, "\n");
        }
        push_str(&mut s, "- ");
        push_str(&mut s, source_files[i].as_str());
        assert(source_files@.take(i + 1).drop_last() =~= source_files@.take(i as int));
        i = i + 1;
        assert(s@ =~= head + bullet_list(source_files@.take(i as int)));
    }
    assert(source_files@.take(i as int) =~= source_files@);
    s
}

pub open spec fn url_text(model: Seq<char>, api_key: Seq<char>) -> Seq<char> {
    "https://generativelanguage.googleapis.com/v1beta/models/"@ + trimmed(model)
        + ":generateContent?key="@ + trimmed(api_key)
}

/// The endpoint for a model, with the key as a query parameter.
pub fn summary_url(model: &str, api_key: &str) -> (r: String)
    ensures
        r@ == url_text(model@, api_key@),
{
    let mut s = owned("https://generativelanguage.googleapis.com/v1beta/models/");
    push_all(&mut s, &trim(model));
    push_str(&mut s, ":generateContent?key=");
    push_all(&mut s, &trim(api_key));
    s
}

/// The first part that carries text.
pub open spec fn first_text(parts: Seq<Option<String>>) -> Option<Seq<char>>
    decreases parts.len(),
{
    if parts.len() == 0 {
        None
    } else {
        match parts[0] {
            Some(t) => Some(t@),
            None => first_text(parts.drop_first()),
        }
    }
}

/// The reply's text: that of the first text part of its last candidate.
pub open spec fn reply_text(candidates: Option<Seq<SummaryCandidate>>) -> Option<Seq<char>> {
    match candidates {
        Some(cs) if cs.len() > 0 => match cs.last().parts {
            Some(ps) => first_text(ps@),
            None => None,
        },
        _ => None,
    }
}

/// The summary in a reply, trimmed, or an error when the reply has no text.
pub fn pick_summary_text(candidates: &Option<Vec<SummaryCandidate>>) -> (r: Result<
    String,
    String,
>)
    ensures
        r is Ok <==> reply_text(
            match candidates {
                Some(cs) => Some(cs@),
                None => None,
            },
        ) is Some,
        r matches Ok(t) ==> Some(t@) == match reply_text(
            match candidates {
                Some(cs) => Some(cs@),
                None => None,
            },
        ) {
            Some(x) => Some(trimmed(x)),
            None => None,
        },
        r matches Err(m) ==> m@ == "Gemini API response did not contain text output"@,
{
    let missing = "Gemini API response did not contain text output";
    let cs = match candidates {
        Some(cs) => cs,
        None => return Err(owned(missing)),
    };
    if cs.len() == 0 {
        return Err(owned(missing));
    }
    let last = &cs[cs.len() - 1];
    let parts = match &last.parts {
        Some(ps) => ps,
        None => return Err(owned(missing)),
    };
    let ghost whole = match candidates {
        Some(cs) => Some(cs@),
        None => None,
    };
    assert(reply_text(whole) == first_text(parts@));
    assert(parts@.subrange(0, parts@.len() as int) =~= parts@);
    let mut i: usize = 0;
    while i < parts.len()
        invariant
            i <= parts.len(),
            reply_text(whole) == first_text(parts@),
            whole == match candidates {
                Some(cs) => Some(cs@),
                None => None,
            },
            first_text(parts@) == first_text(parts@.subrange(i as int, parts@.len() as int)),
        decreases parts.len() - i,
    {
        assert(parts@.subrange(i as int, parts@.len() as int).drop_first() =~= parts@.subrange(
            i + 1,
            parts@.len() as int,
        ));
        if let Some(t) = &parts[i] {
            return Ok(string_of(&trim(t.as_str())));
        }
        i = i + 1;
    }
    Err(owned(missing))
}

} // verus!
