//! The one-shot correction for a keystore socket path that is longer than
//! the platform allows: the keystore directory is reached through a short
//! link, and the keystore's configuration is rewritten so that its
//! connection URL goes through that link. Only the line that declares the
//! connection URL changes.

use vstd::prelude::*;
use vstd::string::StringExecFns;
use crate::errors::LairKeystoreError;
use crate::paths::{join_chars, joined};
use crate::text::{
    append_chars, concat_all, contains, contains_char, contains_text, is_last_occurrence,
    is_open_line, is_whole_line, lemma_first_line_len, lemma_lines_are_lines, lemma_lines_concat,
    lemma_lines_of_concat, lines_with_endings, occurs_at, rfind, to_chars, to_text,
    LinesWithEndings,
};

verus! {

/// A line declares the connection URL when it holds this key.
pub open spec fn is_url_line(line: Seq<char>) -> bool {
    contains_text(line, "connectionUrl:"@)
}

/// `line` without the line feed, or carriage return and line feed, that
/// ends it.
pub open spec fn without_ending(line: Seq<char>) -> Seq<char> {
    if line.len() > 0 && line.last() == '\n' {
        let t = line.drop_last();
        if t.len() > 0 && t.last() == '\r' {
            t.drop_last()
        } else {
            t
        }
    } else {
        line
    }
}

/// The lines among `lines` that declare the connection URL, without their
/// endings, run together.
pub open spec fn url_line_text(lines: Seq<Seq<char>>) -> Seq<char>
    decreases lines.len(),
{
    if lines.len() == 0 {
        Seq::empty()
    } else if is_url_line(lines.last()) {
        url_line_text(lines.drop_last()) + without_ending(lines.last())
    } else {
        url_line_text(lines.drop_last())
    }
}

/// The offset of the last occurrence of `pat` in `s`, where there is one.
pub open spec fn last_occurrence(s: Seq<char>, pat: Seq<char>) -> int {
    choose|i: int| is_last_occurrence(s, pat, i)
}

/// The socket file name and the key that follows it, as the configuration
/// `config` declares them: what its connection URL holds from the last
/// `socket?` on. `None` where the configuration declares no such URL.
pub open spec fn socket_suffix(config: Seq<char>) -> Option<Seq<char>> {
    let t = url_line_text(lines_with_endings(config));
    if contains_text(t, "socket?"@) {
        Some(t.subrange(last_occurrence(t, "socket?"@), t.len() as int))
    } else {
        None
    }
}

/// The URL text of the socket `suffix` reached through the directory
/// `link_dir`.
pub open spec fn socket_url_text(link_dir: Seq<char>, suffix: Seq<char>) -> Seq<char> {
    "unix://"@ + joined(link_dir, suffix)
}

/// The line that declares `url` as the connection URL.
pub open spec fn url_line(url: Seq<char>) -> Seq<char> {
    "connectionUrl: "@ + url + seq!['\n']
}

/// `lines` with every line that declares the connection URL replaced by
/// `new_line`, and every other line as it was.
pub open spec fn replace_url_lines(lines: Seq<Seq<char>>, new_line: Seq<char>) -> Seq<Seq<char>> {
    Seq::new(
        lines.len(),
        |i: int|
            if is_url_line(lines[i]) {
                new_line
            } else {
                lines[i]
            },
    )
}

/// The configuration `config` with `new_line` in place of every line that
/// declares the connection URL.
pub open spec fn rewritten_config(config: Seq<char>, new_line: Seq<char>) -> Seq<char> {
    concat_all(replace_url_lines(lines_with_endings(config), new_line))
}

/// A character that may stand in a link name.
pub open spec fn is_link_id_char(c: char) -> bool {
    c == '_' || c == '-' || ('0' <= c && c <= '9') || ('a' <= c && c <= 'z') || ('A' <= c && c
        <= 'Z')
}

/// The serialization that the URL parser gives for the text `text`, or
/// `None` where the parser rejects it.
pub uninterp spec fn url_serialization(text: Seq<char>) -> Option<Seq<char>>;

/// Parses `text` with `url::Url::parse`. On success the result is the
/// parsed URL's serialization, which depends on `text` alone; on failure it
/// is the parser's description of the error, of which nothing is claimed.
#[verifier::external_body]
fn parse_url(text: &str) -> (r: Result<String, String>)
    ensures
        r is Ok <==> url_serialization(text@) is Some,
        r is Ok ==> url_serialization(text@) == Some(r->Ok_0@),
{
    match url::Url::parse(text) {
        Ok(parsed) => Ok(String::from(parsed)),
        Err(e) => Err(format!("{}", e)),
    }
}

/// Draws a random identifier with `nanoid::format` from its default
/// generator and its URL-safe alphabet: `size` characters, each a letter, a
/// digit, `_` or `-`. Which ones is left open. The size is kept to what
/// the generator handles: for no character at all it would not return.
#[verifier::external_body]
fn random_id(size: usize) -> (id: String)
    requires
        0 < size <= 1024,
    ensures
        id@.len() == size,
        forall|i: int| 0 <= i < id@.len() ==> is_link_id_char(#[trigger] id@[i]),
{
    nanoid::format(nanoid::rngs::default, &nanoid::alphabet::SAFE, size)
}

/// The shape of a link name: `lair.`, then thirteen characters of a link
/// identifier.
pub open spec fn is_link_name(name: Seq<char>) -> bool {
    &&& name.len() == 18
    &&& name.subrange(0, 5) == "lair."@
    &&& forall|i: int| 5 <= i < 18 ==> is_link_id_char(#[trigger] name[i])
}

/// The link name for the identifier `id`.
pub fn link_name_for(id: &str) -> (name: String)
    ensures
        name@ == "lair."@ + id@,
{
    let mut name = String::from_str("lair.");
    name.append(id);
    name
}

/// A fresh name for the short link to the keystore directory.
pub fn fresh_link_name() -> (name: String)
    ensures
        is_link_name(name@),
{
    let id = random_id(13);
    let name = link_name_for(id.as_str());
    proof {
        reveal_strlit("lair.");
        assert(name@.subrange(0, 5) =~= "lair."@);
        assert forall|i: int| 5 <= i < 18 implies is_link_id_char(#[trigger] name@[i]) by {
            assert(name@[i] == id@[i - 5]);
        }
    }
    name
}

/// Removes the line ending from `line`.
pub fn strip_ending(line: &Vec<char>) -> (r: Vec<char>)
    ensures
        r@ == without_ending(line@),
{
    let mut end: usize = line.len();
    if end > 0 && line[end - 1] == '\n' {
        end -= 1;
        if end > 0 && line[end - 1] == '\r' {
            end -= 1;
        }
    }
    let mut r: Vec<char> = Vec::new();
    let mut i: usize = 0;
    while i < end
        invariant
            i <= end <= line.len(),
            r@ == line@.subrange(0, i as int),
        decreases end - i,
    {
        r.push(line[i]);
        i += 1;
    }
    assert(r@ =~= without_ending(line@));
    r
}

/// The last occurrence of a pattern is unique.
pub proof fn lemma_last_occurrence(s: Seq<char>, pat: Seq<char>, i: int)
    requires
        is_last_occurrence(s, pat, i),
    ensures
        last_occurrence(s, pat) == i,
        contains_text(s, pat),
{
    assert(occurs_at(s, pat, i));
    let j = last_occurrence(s, pat);
    assert(is_last_occurrence(s, pat, j));
    if j < i {
        assert(!occurs_at(s, pat, i));
    }
    if i < j {
        assert(!occurs_at(s, pat, j));
    }
}

/// The text that holds the URL of the keystore socket when it is reached
/// through `link_dir`, for the parser to read; `None` where `config`
/// declares no socket.
pub fn socket_url_request(config: &str, link_dir: &str) -> (r: Option<String>)
    ensures
        match socket_suffix(config@) {
            Some(suffix) => r is Some && r->Some_0@ == socket_url_text(link_dir@, suffix),
            None => r is None,
        },
{
    let marker = to_chars("connectionUrl:");
    let socket = to_chars("socket?");
    let mut it = LinesWithEndings::from(config);
    let mut text: Vec<char> = Vec::new();
    let ghost mut done: Seq<Seq<char>> = Seq::empty();
    loop
        invariant
            marker@ == "connectionUrl:"@,
            lines_with_endings(config@) == done + lines_with_endings(it.remaining()),
            text@ == url_line_text(done),
        ensures
            text@ == url_line_text(lines_with_endings(config@)),
        decreases it.remaining().len(),
    {
        let ghost rem = it.remaining();
        proof {
            lemma_first_line_len(rem);
        }
        match it.next_chars() {
            None => {
                assert(done + lines_with_endings(rem) =~= done);
                break ;
            },
            Some(line) => {
                if contains(&line, &marker) {
                    let stripped = strip_ending(&line);
                    append_chars(&mut text, &stripped);
                }
                proof {
                    let next = done.push(line@);
                    assert(next.drop_last() =~= done);
                    assert(next + lines_with_endings(it.remaining()) =~= done
                        + lines_with_endings(rem));
                    done = next;
                }
            },
        }
    }
    match rfind(&text, &socket) {
        None => None,
        Some(at) => {
            proof {
                lemma_last_occurrence(text@, socket@, at as int);
            }
            let mut suffix: Vec<char> = Vec::new();
            let mut i: usize = at;
            while i < text.len()
                invariant
                    at <= i <= text.len(),
                    suffix@ == text@.subrange(at as int, i as int),
                decreases text.len() - i,
            {
                suffix.push(text[i]);
                i += 1;
            }
            let dir = to_chars(link_dir);
            let path = join_chars(&dir, &suffix);
            let mut url = String::from_str("unix://");
            let path_text = to_text(&path);
            url.append(path_text.as_str());
            Some(url)
        },
    }
}

/// Rewrites `config` for the outcome `parsed` of reading the socket URL:
/// with the URL's serialization, every line that declares the connection
/// URL becomes the line declaring it, and every other line stays as it is;
/// with the parser's error, the rewrite fails and reports it.
pub fn apply_parsed_url(config: &str, parsed: Result<String, String>) -> (r: Result<
    String,
    LairKeystoreError,
>)
    ensures
        match parsed {
            Ok(url) => r is Ok && r->Ok_0@ == rewritten_config(config@, url_line(url@)),
            Err(e) => r matches Err(LairKeystoreError::ErrorCreatingSymLink(m)) && m@
                == "Failed to parse URL for symlink lair path: "@ + e@,
        },
{
    match parsed {
        Err(e) => {
            let mut m = String::from_str("Failed to parse URL for symlink lair path: ");
            m.append(e.as_str());
            Err(LairKeystoreError::ErrorCreatingSymLink(m))
        },
        Ok(url) => {
            let marker = to_chars("connectionUrl:");
            let mut new_line = to_chars("connectionUrl: ");
            let url_chars = to_chars(url.as_str());
            append_chars(&mut new_line, &url_chars);
            new_line.push('\n');
            assert(new_line@ =~= url_line(url@));
            let mut it = LinesWithEndings::from(config);
            let mut out: Vec<char> = Vec::new();
            let ghost mut done: Seq<Seq<char>> = Seq::empty();
            assert(replace_url_lines(done, new_line@) =~= Seq::<Seq<char>>::empty());
            loop
                invariant
                    marker@ == "connectionUrl:"@,
                    lines_with_endings(config@) == done + lines_with_endings(it.remaining()),
                    out@ == concat_all(replace_url_lines(done, new_line@)),
                ensures
                    out@ == rewritten_config(config@, new_line@),
                decreases it.remaining().len(),
            {
                let ghost rem = it.remaining();
                proof {
                    lemma_first_line_len(rem);
                }
                match it.next_chars() {
                    None => {
                        assert(done + lines_with_endings(rem) =~= done);
                        break ;
                    },
                    Some(line) => {
                        if contains(&line, &marker) {
                            append_chars(&mut out, &new_line);
                        } else {
                            append_chars(&mut out, &line);
                        }
                        proof {
                            let next = done.push(line@);
                            let replaced = replace_url_lines(next, new_line@);
                            assert(replaced.drop_last() =~= replace_url_lines(done, new_line@));
                            assert(next + lines_with_endings(it.remaining()) =~= done
                                + lines_with_endings(rem));
                            done = next;
                        }
                    },
                }
            }
            Ok(to_text(&out))
        },
    }
}

/// Rewrites the keystore configuration `config` so that its connection URL
/// reaches the socket through the directory `link_dir`.
pub fn rewrite_connection_url(config: &str, link_dir: &str) -> (r: Result<
    String,
    LairKeystoreError,
>)
    ensures
        match socket_suffix(config@) {
            None => r matches Err(LairKeystoreError::ErrorReadingLairConfig(m)) && m@
                == "No socket path in the connectionUrl of lair-keystore-config.yaml"@,
            Some(suffix) => match url_serialization(socket_url_text(link_dir@, suffix)) {
                Some(url) => r is Ok && r->Ok_0@ == rewritten_config(config@, url_line(url)),
                None => r matches Err(LairKeystoreError::ErrorCreatingSymLink(m)) && occurs_at(
                    m@,
                    "Failed to parse URL for symlink lair path: "@,
                    0,
                ),
            },
        },
{
    match socket_url_request(config, link_dir) {
        None => Err(
            LairKeystoreError::ErrorReadingLairConfig(
                String::from_str(
                    "No socket path in the connectionUrl of lair-keystore-config.yaml",
                ),
            ),
        ),
        Some(text) => {
            let parsed = parse_url(text.as_str());
            let r = apply_parsed_url(config, parsed);
            proof {
                if let Err(LairKeystoreError::ErrorCreatingSymLink(m)) = &r {
                    let prefix = "Failed to parse URL for symlink lair path: "@;
                    assert(m@.subrange(0, 0 + (prefix.len() as int)) =~= prefix);
                }
            }
            r
        },
    }
}

/// The rewrite touches nothing but the lines that declare the connection
/// URL. The configuration is its lines put together; the rewritten
/// configuration is as many lines put together, of which each one that does
/// not declare the URL is the line that stood there, ending included, and
/// each one that does is the new line.
pub proof fn lemma_rewrite_keeps_other_lines(config: Seq<char>, new_line: Seq<char>)
    ensures
        ({
            let before = lines_with_endings(config);
            let after = replace_url_lines(before, new_line);
            &&& concat_all(before) == config
            &&& concat_all(after) == rewritten_config(config, new_line)
            &&& after.len() == before.len()
            &&& forall|i: int|
                0 <= i < before.len() ==> #[trigger] after[i] == (if is_url_line(before[i]) {
                    new_line
                } else {
                    before[i]
                })
        }),
{
    lemma_lines_concat(config);
}

/// A configuration without a line that declares the connection URL is
/// rewritten to itself.
pub proof fn lemma_rewrite_without_url_line(config: Seq<char>, new_line: Seq<char>)
    requires
        forall|i: int|
            0 <= i < lines_with_endings(config).len() ==> !is_url_line(
                #[trigger] lines_with_endings(config)[i],
            ),
    ensures
        rewritten_config(config, new_line) == config,
{
    lemma_lines_concat(config);
    assert(replace_url_lines(lines_with_endings(config), new_line) =~= lines_with_endings(
        config,
    ));
}

/// The line that declares a URL without a line feed is one line, with its
/// ending.
pub proof fn lemma_url_line_is_whole(url: Seq<char>)
    requires
        !contains_char(url, '\n'),
    ensures
        is_whole_line(url_line(url)),
{
    reveal_strlit("connectionUrl: ");
    let line = url_line(url);
    assert forall|j: int| 0 <= j < line.len() - 1 implies line[j] != '\n' by {
        if j >= 15 {
            assert(line[j] == url[j - 15]);
        }
    }
}

/// Line by line, the rewrite touches nothing but the lines that declare
/// the connection URL: where the new line is one line with its ending, the
/// rewritten configuration has as many lines as the configuration, every
/// line that does not declare the URL is the line that stood there, ending
/// included, and every line that does is the new line.
pub proof fn lemma_rewritten_lines(config: Seq<char>, new_line: Seq<char>)
    requires
        is_whole_line(new_line),
    ensures
        lines_with_endings(rewritten_config(config, new_line)) == replace_url_lines(
            lines_with_endings(config),
            new_line,
        ),
{
    lemma_lines_are_lines(config);
    let before = lines_with_endings(config);
    let after = replace_url_lines(before, new_line);
    assert forall|i: int| 0 <= i < after.len() implies is_whole_line(#[trigger] after[i]) || (i
        == after.len() - 1 && is_open_line(after[i])) by {
        assert(is_whole_line(before[i]) || (i == before.len() - 1 && is_open_line(before[i])));
    }
    lemma_lines_of_concat(after);
}

/// For a URL without a line feed, the lines of the rewritten configuration
/// are the lines of the configuration, with the line that declares the URL
/// in place of each line that declared one.
pub proof fn lemma_rewritten_lines_for_url(config: Seq<char>, url: Seq<char>)
    requires
        !contains_char(url, '\n'),
    ensures
        lines_with_endings(rewritten_config(config, url_line(url))) == replace_url_lines(
            lines_with_endings(config),
            url_line(url),
        ),
{
    lemma_url_line_is_whole(url);
    lemma_rewritten_lines(config, url_line(url));
}

} // verus!
