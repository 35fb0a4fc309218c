//! Resolution of post-creation arguments.
//!
//! The `post` command accepts its title, submolt, content and URL both as
//! flags and as positional arguments. One-shot invocations resolve them
//! by fixed rules: a flag wins over its positional twin; a missing
//! submolt falls back to `general`; and when no URL was given but the
//! title (or, failing that, the content) begins with `http`, that value
//! is promoted to the URL and the title falls back to `Untitled Post`.

use vstd::prelude::*;

verus! {

/// Parameters for creating a post, as collected from the command line.
#[derive(Debug, Default)]
pub struct PostParams {
    /// Post title from its flag.
    pub title: Option<String>,
    /// Post content from its flag.
    pub content: Option<String>,
    /// Post URL from its flag.
    pub url: Option<String>,
    /// Target submolt from its flag.
    pub submolt: Option<String>,
    /// Post title from the first positional argument.
    pub title_pos: Option<String>,
    /// Target submolt from the second positional argument.
    pub submolt_pos: Option<String>,
    /// Post content from the third positional argument.
    pub content_pos: Option<String>,
    /// Post URL from the fourth positional argument.
    pub url_pos: Option<String>,
}

/// Whether text begins with `http` — the promotion test for bare URLs.
pub open spec fn has_http_prefix(s: Seq<char>) -> bool {
    s.len() >= 4 && s[0] == 'h' && s[1] == 't' && s[2] == 't' && s[3] == 'p'
}

/// The text of the first present argument: the flag wins over its
/// positional twin.
pub open spec fn merged_view(flag: Option<String>, positional: Option<String>) -> Option<
    Seq<char>,
> {
    match flag {
        Some(s) => Some(s@),
        None => match positional {
            Some(s) => Some(s@),
            None => None,
        },
    }
}

/// The title before URL promotion.
pub open spec fn base_title(p: PostParams) -> Option<Seq<char>> {
    merged_view(p.title, p.title_pos)
}

/// The content before URL promotion.
pub open spec fn base_content(p: PostParams) -> Option<Seq<char>> {
    merged_view(p.content, p.content_pos)
}

/// The URL before promotion.
pub open spec fn base_url(p: PostParams) -> Option<Seq<char>> {
    merged_view(p.url, p.url_pos)
}

/// Whether the title is promoted to the URL: no URL was given and the
/// title begins with `http`.
pub open spec fn promotes_title(p: PostParams) -> bool {
    &&& base_url(p) is None
    &&& base_title(p) matches Some(t) && has_http_prefix(t)
}

/// Whether the content is promoted to the URL: no URL was given, the
/// title was not promoted, and the content begins with `http`.
pub open spec fn promotes_content(p: PostParams) -> bool {
    &&& base_url(p) is None
    &&& !promotes_title(p)
    &&& base_content(p) matches Some(c) && has_http_prefix(c)
}

/// The resolved title, with its default.
pub open spec fn resolved_title(p: PostParams) -> Seq<char> {
    if promotes_title(p) {
        "Untitled Post"@
    } else {
        match base_title(p) {
            Some(t) => t,
            None => "Untitled Post"@,
        }
    }
}

/// The resolved submolt, with its default.
pub open spec fn resolved_submolt(p: PostParams) -> Seq<char> {
    match merged_view(p.submolt, p.submolt_pos) {
        Some(s) => s,
        None => "general"@,
    }
}

/// The resolved content: gone when it was promoted to the URL.
pub open spec fn resolved_content(p: PostParams) -> Option<Seq<char>> {
    if promotes_content(p) {
        None
    } else {
        base_content(p)
    }
}

/// The resolved URL, after promotion.
pub open spec fn resolved_url(p: PostParams) -> Option<Seq<char>> {
    if promotes_title(p) {
        base_title(p)
    } else if promotes_content(p) {
        base_content(p)
    } else {
        base_url(p)
    }
}

/// The text of an optional argument.
pub open spec fn opt_arg_view(o: Option<String>) -> Option<Seq<char>> {
    match o {
        Some(s) => Some(s@),
        None => None,
    }
}

/// Whether text begins with `http`.
fn starts_with_http(s: &str) -> (r: bool)
    ensures
        r == has_http_prefix(s@),
{
    let len = s.unicode_len();
    if len < 4 {
        return false;
    }
    s.get_char(0) == 'h' && s.get_char(1) == 't' && s.get_char(2) == 't' && s.get_char(3) == 'p'
}

/// Resolves one-shot post parameters to `(title, submolt, content,
/// url)`, by the fixed rules above.
pub fn resolve_post_params(params: PostParams) -> (r: (String, String, Option<String>, Option<
    String,
>))
    ensures
        r.0@ == resolved_title(params),
        r.1@ == resolved_submolt(params),
        opt_arg_view(r.2) == resolved_content(params),
        opt_arg_view(r.3) == resolved_url(params),
{
    let PostParams { title, content, url, submolt, title_pos, submolt_pos, content_pos, url_pos } =
        params;
    let mut f_title = match title {
        Some(t) => Some(t),
        None => title_pos,
    };
    let f_submolt = match submolt {
        Some(s) => Some(s),
        None => submolt_pos,
    };
    let mut f_content = match content {
        Some(c) => Some(c),
        None => content_pos,
    };
    let mut f_url = match url {
        Some(u) => Some(u),
        None => url_pos,
    };
    if f_url.is_none() {
        let promote_t = match &f_title {
            Some(t) => starts_with_http(t.as_str()),
            None => false,
        };
        if promote_t {
            f_url = f_title;
            f_title = None;
        } else {
            let promote_c = match &f_content {
                Some(c) => starts_with_http(c.as_str()),
                None => false,
            };
            if promote_c {
                f_url = f_content;
                f_content = None;
            }
        }
    }
    let final_title = match f_title {
        Some(t) => t,
        None => String::from_str("Untitled Post"),
    };
    let final_submolt = match f_submolt {
        Some(s) => s,
        None => String::from_str("general"),
    };
    (final_title, final_submolt, f_content, f_url)
}

} // verus!
