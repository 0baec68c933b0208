//! The two links that lead away from the site.

use vstd::prelude::*;

use crate::reply::{Reply, ReplyView};

verus! {

/// Where the wiki is.
pub const WIKI_URL: &'static str = "https://github.com/Arteiii/Authly/wiki";

/// Where the source is.
pub const GITHUB_URL: &'static str = "https://github.com/Arteiii/Authly";

/// Redirects to the wiki, for good.
pub fn wiki() -> (reply: Reply)
    ensures
        reply@ == ReplyView::moved(WIKI_URL@),
{
    Reply::moved(WIKI_URL.to_owned())
}

/// Redirects to the source, for good.
pub fn github() -> (reply: Reply)
    ensures
        reply@ == ReplyView::moved(GITHUB_URL@),
{
    Reply::moved(GITHUB_URL.to_owned())
}

/// Both targets can be sent as a `Location` header.
pub proof fn links_are_presentable()
    ensures
        ReplyView::moved(WIKI_URL@).presentable(),
        ReplyView::moved(GITHUB_URL@).presentable(),
{
    reveal_strlit("https://github.com/Arteiii/Authly/wiki");
    reveal_strlit("https://github.com/Arteiii/Authly");
}

} // verus!
