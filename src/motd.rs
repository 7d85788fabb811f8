//! The message-of-the-day line.

use crate::document::{extract_text, text_of, RecordError};
use crate::selection::{Author, Post};
use vstd::prelude::*;

verus! {

/// The name shown for an author: the display name, or nothing.
pub open spec fn shown_name(author: Author) -> Seq<char> {
    match author.display_name {
        Some(name) => name@,
        None => Seq::empty(),
    }
}

/// `🦋 "<text>" - <display name> (@<handle>)`
pub open spec fn motd_line(text: Seq<char>, author: Author) -> Seq<char> {
    "🦋 \""@ + text + "\" - "@ + shown_name(author) + " (@"@ + author.handle@ + ")"@
}

/// Renders the line for a post's text and author.
pub fn render_line(text: &str, author: &Author) -> (r: String)
    ensures
        r@ == motd_line(text@, *author),
{
    let mut line = String::from_str("🦋 \"");
    line.append(text);
    line.append("\" - ");
    match &author.display_name {
        Some(name) => line.append(name.as_str()),
        None => {},
    }
    line.append(" (@");
    line.append(author.handle.as_str());
    line.append(")");
    line
}

/// The line for a selected post, or why its record holds no text.
pub fn motd_for_post(post: &Post) -> (r: Result<String, RecordError>)
    ensures
        match text_of(post.record) {
            Ok(text) => r matches Ok(line) && line@ == motd_line(text, post.author),
            Err(e) => r == Err::<String, RecordError>(e),
        },
{
    let text = extract_text(&post.record)?;
    Ok(render_line(text.as_str(), &post.author))
}

} // verus!
