//! The landing page.

use vstd::prelude::*;

use crate::reply::{Reply, ReplyView};

verus! {

/// The landing page, as it is sent.
pub const INDEX_HTML: &'static str = "<!DOCTYPE html>
<html lang=\"en\">
<head>
    <meta charset=\"utf-8\">
    <meta name=\"viewport\" content=\"width=device-width, initial-scale=1\">
    <title>Authly</title>
</head>
<body>
    <h1>Authly</h1>
    <p>The server is up.</p>
    <ul>
        <li><a href=\"/link/wiki\">Wiki</a></li>
        <li><a href=\"/link/github\">Source on GitHub</a></li>
    </ul>
</body>
</html>
";

/// Answers with the landing page: status 200, HTML, always the same text.
pub fn index() -> (reply: Reply)
    ensures
        reply@ == ReplyView::page(INDEX_HTML@),
{
    Reply::page(INDEX_HTML.to_owned())
}

} // verus!
