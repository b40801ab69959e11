//! The manifest of a locally installed app: a text of quoted keys and
//! values, grouped by braces. The reader takes the values that stand
//! directly under the root.
use crate::steam::library::{Manifest, ManifestView};
use crate::text::str_eq;
use vstd::prelude::*;
use vstd::string::StringExecFns;

verus! {

/// The mathematical value of a token.
pub enum TokenView {
    Text(Seq<char>),
    Open,
    Close,
}

/// A token of a manifest: a quoted text, an opening or a closing brace.
#[derive(Debug)]
pub enum Token {
    Text(String),
    Open,
    Close,
}

impl View for Token {
    type V = TokenView;

    open spec fn view(&self) -> TokenView {
        match self {
            Token::Text(text) => TokenView::Text(text@),
            Token::Open => TokenView::Open,
            Token::Close => TokenView::Close,
        }
    }
}

impl DeepView for Token {
    type V = TokenView;

    open spec fn deep_view(&self) -> TokenView {
        self@
    }
}

/// The character that stands behind a backslash: `n` and `t` give a line
/// feed and a tab, any other character gives itself.
pub open spec fn unescaped(c: char) -> char {
    if c == 'n' {
        '\n'
    } else if c == 't' {
        '\t'
    } else {
        c
    }
}

/// The characters that separate tokens.
pub open spec fn is_blank(c: char) -> bool {
    c == ' ' || c == '\t' || c == '\n' || c == '\r'
}

/// The text between quotes that starts at position `i`, just behind the
/// opening quote, and the position behind the closing quote; `None` where
/// the text ends before the quote closes.
pub open spec fn spec_quoted(s: Seq<char>, i: int) -> Option<(Seq<char>, int)>
    decreases s.len() - i,
{
    if i < 0 || i >= s.len() {
        None
    } else if s[i] == '"' {
        Some((Seq::empty(), i + 1))
    } else if s[i] == '\\' {
        if i + 1 >= s.len() {
            None
        } else {
            match spec_quoted(s, i + 2) {
                Some((rest, end)) => Some((seq![unescaped(s[i + 1])] + rest, end)),
                None => None,
            }
        }
    } else {
        match spec_quoted(s, i + 1) {
            Some((rest, end)) => Some((seq![s[i]] + rest, end)),
            None => None,
        }
    }
}

/// A list of tokens with one more in front.
pub open spec fn spec_cons(first: TokenView, rest: Option<Seq<TokenView>>) -> Option<Seq<TokenView>> {
    match rest {
        Some(tokens) => Some(seq![first] + tokens),
        None => None,
    }
}

/// The tokens of the text from position `i` on; `None` where the text holds
/// anything but blanks, braces and quoted texts, or a quote that never
/// closes.
pub open spec fn spec_tokens(s: Seq<char>, i: int) -> Option<Seq<TokenView>>
    decreases s.len() - i,
{
    if i < 0 || i >= s.len() {
        Some(Seq::empty())
    } else if is_blank(s[i]) {
        spec_tokens(s, i + 1)
    } else if s[i] == '{' {
        spec_cons(TokenView::Open, spec_tokens(s, i + 1))
    } else if s[i] == '}' {
        spec_cons(TokenView::Close, spec_tokens(s, i + 1))
    } else if s[i] == '"' {
        match spec_quoted(s, i + 1) {
            Some((content, end)) => if i < end <= s.len() {
                spec_cons(TokenView::Text(content), spec_tokens(s, end))
            } else {
                None
            },
            None => None,
        }
    } else {
        None
    }
}

/// The pairs of key and value that stand directly under the root, read from
/// the token at position `i` on, `depth` braces deep. A key with a group
/// behind it is passed over with the whole group. `None` where the braces do
/// not match or a key stands alone.
pub open spec fn spec_pairs(tokens: Seq<TokenView>, i: int, depth: nat) -> Option<
    Seq<(Seq<char>, Seq<char>)>,
>
    decreases tokens.len() - i,
{
    if i < 0 || i >= tokens.len() || depth == 0 {
        None
    } else {
        match tokens[i] {
            TokenView::Close => if depth == 1 {
                Some(Seq::empty())
            } else {
                spec_pairs(tokens, i + 1, (depth - 1) as nat)
            },
            TokenView::Open => None,
            TokenView::Text(key) => if i + 1 >= tokens.len() {
                None
            } else {
                match tokens[i + 1] {
                    TokenView::Text(value) => match spec_pairs(tokens, i + 2, depth) {
                        Some(rest) => Some(
                            if depth == 1 {
                                seq![(key, value)] + rest
                            } else {
                                rest
                            },
                        ),
                        None => None,
                    },
                    TokenView::Open => spec_pairs(tokens, i + 2, depth + 1),
                    TokenView::Close => None,
                }
            },
        }
    }
}

/// The pairs that stand directly under the root of a manifest: the tokens
/// must start with the name of the root and its opening brace.
pub open spec fn spec_fields(tokens: Seq<TokenView>) -> Option<Seq<(Seq<char>, Seq<char>)>> {
    if tokens.len() >= 2 && tokens[0] is Text && tokens[1] is Open {
        spec_pairs(tokens, 2, 1)
    } else {
        None
    }
}

/// The value of the first pair with this key.
pub open spec fn spec_lookup(pairs: Seq<(Seq<char>, Seq<char>)>, key: Seq<char>) -> Option<Seq<char>>
    decreases pairs.len(),
{
    if pairs.len() == 0 {
        None
    } else if pairs.first().0 == key {
        Some(pairs.first().1)
    } else {
        spec_lookup(pairs.drop_first(), key)
    }
}

/// What the pairs of a manifest say of the app: the id and the name, which
/// every manifest gives, and the three values that it may give.
pub open spec fn spec_manifest_of(pairs: Seq<(Seq<char>, Seq<char>)>) -> Option<ManifestView> {
    match (spec_lookup(pairs, "appid"@), spec_lookup(pairs, "name"@)) {
        (Some(app_id), Some(name)) => Some(
            ManifestView {
                app_id,
                name,
                last_played: spec_lookup(pairs, "LastPlayed"@),
                bytes_downloaded: spec_lookup(pairs, "BytesDownloaded"@),
                bytes_to_download: spec_lookup(pairs, "BytesToDownload"@),
            },
        ),
        _ => None,
    }
}

/// What the text of a manifest says of the app; `None` where the text is no
/// manifest.
pub open spec fn spec_manifest(text: Seq<char>) -> Option<ManifestView> {
    match spec_tokens(text, 0) {
        Some(tokens) => match spec_fields(tokens) {
            Some(pairs) => spec_manifest_of(pairs),
            None => None,
        },
        None => None,
    }
}

fn read_quoted(text: &str, n: usize, start: usize) -> (found: Option<(String, usize)>)
    requires
        n == text@.len(),
        start <= n,
    ensures
        match found {
            Some((content, end)) => spec_quoted(text@, start as int) == Some((content@, end as int))
                && start < end <= n,
            None => spec_quoted(text@, start as int) is None,
        },
{
    let ghost s = text@;
    let mut content = String::new();
    let mut i: usize = start;
    proof {
        assert(forall|rest: Seq<char>| #[trigger] (content@ + rest) =~= rest);
    }
    loop
        invariant
            start <= i <= n,
            n == s.len(),
            s == text@,
            spec_quoted(s, start as int) == (match spec_quoted(s, i as int) {
                Some((rest, end)) => Some((content@ + rest, end)),
                None => None,
            }),
        decreases n - i,
    {
        if i >= n {
            return None;
        }
        let c = text.get_char(i);
        if c == '"' {
            proof {
                assert(content@ + Seq::<char>::empty() =~= content@);
            }
            return Some((content, i + 1));
        }
        let ghost before = content@;
        if c == '\\' {
            if i + 1 >= n {
                return None;
            }
            let escaped = text.get_char(i + 1);
            if escaped == 'n' {
                proof {
                    reveal_strlit("\n");
                }
                content.append("\n");
                assert(content@ =~= before + seq![unescaped(s[i + 1])]);
            } else if escaped == 't' {
                proof {
                    reveal_strlit("\t");
                }
                content.append("\t");
                assert(content@ =~= before + seq![unescaped(s[i + 1])]);
            } else {
                let piece = text.substring_char(i + 1, i + 2);
                content.append(piece);
                assert(content@ =~= before + seq![unescaped(s[i + 1])]);
            }
            proof {
                match spec_quoted(s, i + 2) {
                    Some((rest, end)) => {
                        assert(before + (seq![unescaped(s[i + 1])] + rest) =~= content@ + rest);
                    },
                    None => {},
                }
            }
            i += 2;
        } else {
            let piece = text.substring_char(i, i + 1);
            content.append(piece);
            proof {
                assert(content@ =~= before + seq![s[i as int]]);
                match spec_quoted(s, i + 1) {
                    Some((rest, end)) => {
                        assert(before + (seq![s[i as int]] + rest) =~= content@ + rest);
                    },
                    None => {},
                }
            }
            i += 1;
        }
    }
}

/// The tokens of a manifest.
pub fn tokenize(text: &str) -> (found: Option<Vec<Token>>)
    ensures
        found.deep_view() == spec_tokens(text@, 0),
{
    let ghost s = text@;
    let n = text.unicode_len();
    let mut tokens: Vec<Token> = Vec::new();
    let mut i: usize = 0;
    proof {
        assert(tokens.deep_view() =~= Seq::<TokenView>::empty());
        match spec_tokens(s, 0) {
            Some(rest) => {
                assert(tokens.deep_view() + rest =~= rest);
            },
            None => {},
        }
    }
    while i < n
        invariant
            i <= n,
            n == s.len(),
            s == text@,
            spec_tokens(s, 0) == (match spec_tokens(s, i as int) {
                Some(rest) => Some(tokens.deep_view() + rest),
                None => None,
            }),
        decreases n - i,
    {
        let ghost before = tokens.deep_view();
        let c = text.get_char(i);
        if c == ' ' || c == '\t' || c == '\n' || c == '\r' {
            i += 1;
        } else if c == '{' {
            tokens.push(Token::Open);
            proof {
                assert(tokens.deep_view() =~= before.push(TokenView::Open));
                match spec_tokens(s, i + 1) {
                    Some(rest) => {
                        assert(before + (seq![TokenView::Open] + rest) =~= tokens.deep_view() + rest);
                    },
                    None => {},
                }
            }
            i += 1;
        } else if c == '}' {
            tokens.push(Token::Close);
            proof {
                assert(tokens.deep_view() =~= before.push(TokenView::Close));
                match spec_tokens(s, i + 1) {
                    Some(rest) => {
                        assert(before + (seq![TokenView::Close] + rest) =~= tokens.deep_view() + rest);
                    },
                    None => {},
                }
            }
            i += 1;
        } else if c == '"' {
            match read_quoted(text, n, i + 1) {
                Some((content, end)) => {
                    let ghost words = content@;
                    tokens.push(Token::Text(content));
                    proof {
                        assert(tokens.deep_view() =~= before.push(TokenView::Text(words)));
                        match spec_tokens(s, end as int) {
                            Some(rest) => {
                                assert(before + (seq![TokenView::Text(words)] + rest)
                                    =~= tokens.deep_view() + rest);
                            },
                            None => {},
                        }
                    }
                    i = end;
                },
                None => {
                    return None;
                },
            }
        } else {
            return None;
        }
    }
    proof {
        assert(spec_tokens(s, i as int) == Some(Seq::<TokenView>::empty()));
        assert(tokens.deep_view() + Seq::<TokenView>::empty() =~= tokens.deep_view());
    }
    Some(tokens)
}

/// The pairs of key and value that stand directly under the root of a
/// manifest.
pub fn fields(tokens: &Vec<Token>) -> (found: Option<Vec<(String, String)>>)
    ensures
        found.deep_view() == spec_fields(tokens.deep_view()),
{
    let ghost all = tokens.deep_view();
    if tokens.len() < 2 {
        return None;
    }
    proof {
        assert(all[0] == tokens[0]@);
        assert(all[1] == tokens[1]@);
    }
    match (&tokens[0], &tokens[1]) {
        (Token::Text(_), Token::Open) => {},
        _ => {
            return None;
        },
    }
    let mut pairs: Vec<(String, String)> = Vec::new();
    let mut i: usize = 2;
    let mut depth: usize = 1;
    proof {
        assert(pairs.deep_view() =~= Seq::<(Seq<char>, Seq<char>)>::empty());
        match spec_pairs(all, 2, 1) {
            Some(rest) => {
                assert(pairs.deep_view() + rest =~= rest);
            },
            None => {},
        }
    }
    while i < tokens.len()
        invariant
            2 <= i <= tokens.len(),
            1 <= depth < i,
            all == tokens.deep_view(),
            spec_fields(all) == spec_pairs(all, 2, 1),
            spec_pairs(all, 2, 1) == (match spec_pairs(all, i as int, depth as nat) {
                Some(rest) => Some(pairs.deep_view() + rest),
                None => None,
            }),
        decreases tokens.len() - i,
    {
        let ghost before = pairs.deep_view();
        proof {
            assert(all[i as int] == tokens[i as int]@);
        }
        match &tokens[i] {
            Token::Close => {
                if depth == 1 {
                    proof {
                        assert(before + Seq::<(Seq<char>, Seq<char>)>::empty() =~= before);
                    }
                    return Some(pairs);
                }
                depth -= 1;
                i += 1;
            },
            Token::Open => {
                return None;
            },
            Token::Text(key) => {
                if i + 1 >= tokens.len() {
                    return None;
                }
                proof {
                    assert(all[i + 1] == tokens[i + 1]@);
                }
                match &tokens[i + 1] {
                    Token::Text(value) => {
                        if depth == 1 {
                            pairs.push((key.clone(), value.clone()));
                            proof {
                                assert(pairs.deep_view() =~= before.push((key@, value@)));
                                match spec_pairs(all, i + 2, depth as nat) {
                                    Some(rest) => {
                                        assert(before + (seq![(key@, value@)] + rest)
                                            =~= pairs.deep_view() + rest);
                                    },
                                    None => {},
                                }
                            }
                        }
                        i += 2;
                    },
                    Token::Open => {
                        depth += 1;
                        i += 2;
                    },
                    Token::Close => {
                        return None;
                    },
                }
            },
        }
    }
    None
}

proof fn lemma_lookup_skip(pairs: Seq<(Seq<char>, Seq<char>)>, key: Seq<char>, n: int)
    requires
        0 <= n <= pairs.len(),
        forall|j: int| 0 <= j < n ==> (#[trigger] pairs[j]).0 != key,
    ensures
        spec_lookup(pairs, key) == spec_lookup(pairs.skip(n), key),
    decreases n,
{
    if n == 0 {
        assert(pairs.skip(0) =~= pairs);
    } else {
        assert(pairs[0].0 != key);
        let rest = pairs.drop_first();
        assert forall|j: int| 0 <= j < n - 1 implies (#[trigger] rest[j]).0 != key by {
            assert(rest[j] == pairs[j + 1]);
        }
        lemma_lookup_skip(rest, key, n - 1);
        assert(rest.skip(n - 1) =~= pairs.skip(n));
    }
}

/// The value of the first pair with this key.
pub fn lookup(pairs: &Vec<(String, String)>, key: &str) -> (value: Option<String>)
    ensures
        value.deep_view() == spec_lookup(pairs.deep_view(), key@),
{
    let ghost all = pairs.deep_view();
    let mut i: usize = 0;
    while i < pairs.len()
        invariant
            i <= pairs.len(),
            all == pairs.deep_view(),
            forall|j: int| 0 <= j < i ==> (#[trigger] all[j]).0 != key@,
        decreases pairs.len() - i,
    {
        proof {
            assert(all[i as int] == (pairs[i as int].0@, pairs[i as int].1@));
        }
        if str_eq(pairs[i].0.as_str(), key) {
            proof {
                lemma_lookup_skip(all, key@, i as int);
                assert(all.skip(i as int).first() == all[i as int]);
            }
            return Some(pairs[i].1.clone());
        }
        i += 1;
    }
    proof {
        lemma_lookup_skip(all, key@, i as int);
        assert(all.skip(i as int) =~= Seq::empty());
    }
    None
}

/// Reads the text of a manifest; `None` where the text is no manifest or
/// lacks the id or the name of the app.
pub fn read_manifest(text: &str) -> (manifest: Option<Manifest>)
    ensures
        manifest.deep_view() == spec_manifest(text@),
{
    let tokens = match tokenize(text) {
        Some(tokens) => tokens,
        None => {
            return None;
        },
    };
    let pairs = match fields(&tokens) {
        Some(pairs) => pairs,
        None => {
            return None;
        },
    };
    let app_id = match lookup(&pairs, "appid") {
        Some(app_id) => app_id,
        None => {
            return None;
        },
    };
    let name = match lookup(&pairs, "name") {
        Some(name) => name,
        None => {
            return None;
        },
    };
    Some(
        Manifest {
            app_id,
            name,
            last_played: lookup(&pairs, "LastPlayed"),
            bytes_downloaded: lookup(&pairs, "BytesDownloaded"),
            bytes_to_download: lookup(&pairs, "BytesToDownload"),
        },
    )
}

} // verus!
