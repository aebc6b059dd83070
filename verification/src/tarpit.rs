//! The tarpit: pages, links and scripts made up for crawlers that ignore the
//! rules. What is made up for a path is always the same: it is drawn from the
//! digest of the path, and from the digests that branch off that one.
use vstd::prelude::*;
use crate::outside;
use crate::settings;
use crate::text;
use crate::text_laws;

verus! {

/// A letter of a made-up name.
pub open spec fn is_name_char(c: char) -> bool {
    text::is_lower(c) || text::is_digit(c)
}

/// A made-up name.
pub open spec fn is_name(s: Seq<char>) -> bool {
    forall|i: int| 0 <= i < s.len() ==> is_name_char(#[trigger] s[i])
}

/// The seed of what is made up for a text.
pub open spec fn seed_of(s: Seq<char>) -> Seq<u8> {
    outside::sha256_of(vstd::utf8::encode_utf8(s))@
}

/// The seed that branches off another one at a number.
pub open spec fn branch_of(seed: Seq<u8>, k: nat) -> Seq<u8> {
    outside::sha256_of(seed + vstd::utf8::encode_utf8(text::decimal(k)))@
}

/// The number below `n` that a seed picks.
pub open spec fn pick_of(seed: Seq<u8>, n: int) -> int {
    (seed[0] * 16_777_216 + seed[1] * 65_536 + seed[2] * 256 + seed[3]) % n
}

/// The seed of what is made up for a text.
fn seed_for(s: &str) -> (r: [u8; 32])
    ensures
        r@ == seed_of(s@),
{
    outside::sha256(s.as_bytes())
}

/// The seed that branches off another one at a number.
fn branch(seed: &[u8; 32], k: u64) -> (r: [u8; 32])
    ensures
        r@ == branch_of(seed@, k as nat),
{
    let number = text::u64_text(k);
    let digits = number.as_str().as_bytes();
    let mut bytes: Vec<u8> = Vec::new();
    let mut i: usize = 0;
    while i < 32
        invariant
            i <= 32,
            bytes@ == seed@.take(i as int),
        decreases 32 - i,
    {
        bytes.push(seed[i]);
        i += 1;
        assert(bytes@ =~= seed@.take(i as int));
    }
    assert(seed@.take(32) =~= seed@);
    let mut j: usize = 0;
    assert(bytes@ =~= seed@ + digits@.take(0));
    while j < digits.len()
        invariant
            j <= digits@.len(),
            bytes@ == seed@ + digits@.take(j as int),
        decreases digits@.len() - j,
    {
        bytes.push(digits[j]);
        j += 1;
        assert(bytes@ =~= seed@ + digits@.take(j as int));
    }
    assert(digits@.take(j as int) =~= digits@);
    outside::sha256(bytes.as_slice())
}

/// The number up to a limit that a seed picks.
fn pick_up_to(seed: &[u8; 32], limit: usize) -> (r: usize)
    ensures
        r == pick_of(seed@, limit + 1),
        r <= limit,
{
    let number: u128 = seed[0] as u128 * 16_777_216 + seed[1] as u128 * 65_536 + seed[2] as u128
        * 256 + seed[3] as u128;
    let picked: u128 = number % (limit as u128 + 1);
    assert(picked <= limit);
    picked as usize
}

/// The letter or digit of a made-up name that is picked: each of ten digits once,
/// each of 26 letters twice.
pub open spec fn name_char_at(k: int) -> char {
    if k < 10 {
        (k + 48) as char
    } else {
        ((k - 10) % 26 + 97) as char
    }
}

/// The name of a length that is made up from a seed.
pub open spec fn made_name(seed: Seq<u8>, len: nat) -> Seq<char> {
    Seq::new(len, |i: int| name_char_at(pick_of(branch_of(seed, i as nat), 62)))
}

/// The name of a length that is made up from a seed.
fn random_name(seed: &[u8; 32], len: u64) -> (r: String)
    ensures
        r@ == made_name(seed@, len as nat),
{
    let mut out = String::new();
    let mut i: u64 = 0;
    while i < len
        invariant
            i <= len,
            out@ == made_name(seed@, i as nat),
        decreases len - i,
    {
        let k = pick_up_to(&branch(seed, i), 61);
        let letter = if k < 10 {
            (k as u8 + 48) as char
        } else {
            ((k as u8 - 10) % 26 + 97) as char
        };
        out.push(letter);
        i += 1;
        assert(out@ =~= made_name(seed@, i as nat));
    }
    assert(out@ =~= made_name(seed@, len as nat));
    out
}

/// The word of a length that is made up from a seed.
pub open spec fn made_word(seed: Seq<u8>, len: nat) -> Seq<char> {
    Seq::new(len, |i: int| (pick_of(branch_of(seed, i as nat), 26) + 97) as char)
}

/// The word of a length that is made up from a seed.
fn random_alpha(seed: &[u8; 32], len: u64) -> (r: String)
    ensures
        r@ == made_word(seed@, len as nat),
{
    let mut out = String::new();
    let mut i: u64 = 0;
    while i < len
        invariant
            i <= len,
            out@ == made_word(seed@, i as nat),
        decreases len - i,
    {
        let k = pick_up_to(&branch(seed, i), 25);
        out.push((k as u8 + 97) as char);
        i += 1;
        assert(out@ =~= made_word(seed@, i as nat));
    }
    assert(out@ =~= made_word(seed@, len as nat));
    out
}

/// The kinds of links.
#[derive(Debug, Clone, Copy, PartialEq, Eq, Structural)]
pub enum LinkKind {
    Page,
    Script,
    JsonData,
    XmlData,
    Styles,
}

/// The directory of a kind of link.
pub open spec fn kind_directory(kind: LinkKind) -> Seq<char> {
    match kind {
        LinkKind::Page => "page"@,
        LinkKind::Script => "js"@,
        LinkKind::JsonData | LinkKind::XmlData => "data"@,
        LinkKind::Styles => "styles"@,
    }
}

/// The extension of a kind of link.
pub open spec fn kind_extension(kind: LinkKind) -> Seq<char> {
    match kind {
        LinkKind::Page => "html"@,
        LinkKind::Script => "js"@,
        LinkKind::JsonData => "json"@,
        LinkKind::XmlData => "xml"@,
        LinkKind::Styles => "css"@,
    }
}

/// The link of a kind, below some directories, with a name.
pub open spec fn link_of(kind: LinkKind, dirs: Seq<Seq<char>>, name: Seq<char>) -> Seq<char> {
    "/tarpit/"@ + kind_directory(kind) + "/"@ + (if dirs.len() > 0 {
        text::joined(dirs, "/"@) + "/"@
    } else {
        Seq::empty()
    }) + name + "."@ + kind_extension(kind)
}

/// The link of a kind, below some directories, with a name.
pub fn build_link(kind: LinkKind, dirs: &Vec<String>, name: &str) -> (r: String)
    ensures
        r@ == link_of(kind, text::views(dirs@), name@),
{
    let directory = match kind {
        LinkKind::Page => "page",
        LinkKind::Script => "js",
        LinkKind::JsonData | LinkKind::XmlData => "data",
        LinkKind::Styles => "styles",
    };
    let extension = match kind {
        LinkKind::Page => "html",
        LinkKind::Script => "js",
        LinkKind::JsonData => "json",
        LinkKind::XmlData => "xml",
        LinkKind::Styles => "css",
    };
    let ghost views = text::views(dirs@);
    assert(views.len() == dirs@.len());
    let mut below = String::new();
    if dirs.len() > 0 {
        below = text::join(dirs, "/");
        below.append("/");
    }
    let mut out = "/tarpit/".to_string();
    out.append(directory);
    out.append("/");
    out.append(below.as_str());
    out.append(name);
    out.append(".");
    out.append(extension);
    out
}

/// Names of five to eight letters.
pub open spec fn are_directories(dirs: Seq<Seq<char>>) -> bool {
    forall|i: int|
        0 <= i < dirs.len() ==> is_name(#[trigger] dirs[i]) && 5 <= dirs[i].len() <= 8
}

/// A link that may be drawn: at most so deep, with a name of ten letters.
pub open spec fn is_fake_link(link: Seq<char>, depth: int) -> bool {
    exists|kind: LinkKind, dirs: Seq<Seq<char>>, name: Seq<char>|
        dirs.len() <= depth && are_directories(dirs) && is_name(name) && name.len() == 10 && link
            == #[trigger] link_of(kind, dirs, name)
}

/// The kind of link that is made up from a seed.
pub open spec fn made_kind(seed: Seq<u8>) -> LinkKind {
    let k = pick_of(branch_of(seed, 0), 4);
    if k == 0 {
        LinkKind::Page
    } else if k == 1 {
        LinkKind::Script
    } else if k == 2 {
        if pick_of(branch_of(seed, 1), 2) == 0 {
            LinkKind::JsonData
        } else {
            LinkKind::XmlData
        }
    } else {
        LinkKind::Styles
    }
}

/// The directory that is made up from a seed.
pub open spec fn made_directory(seed: Seq<u8>) -> Seq<char> {
    made_name(branch_of(seed, 1), (pick_of(branch_of(seed, 0), 4) + 5) as nat)
}

/// The directories that are made up from a seed, at most so many.
pub open spec fn made_directories(seed: Seq<u8>, depth: int) -> Seq<Seq<char>> {
    Seq::new(
        pick_of(branch_of(seed, 2), depth + 1) as nat,
        |i: int| made_directory(branch_of(branch_of(seed, 3), i as nat)),
    )
}

/// The link that is made up from a seed, at most so deep.
pub open spec fn made_link(seed: Seq<u8>, depth: int) -> Seq<char> {
    link_of(made_kind(seed), made_directories(seed, depth), made_name(branch_of(seed, 4), 10))
}

/// The links that are made up from a seed, at most so deep.
pub open spec fn made_links(seed: Seq<u8>, count: nat, depth: int) -> Seq<Seq<char>> {
    Seq::new(count, |i: int| made_link(branch_of(seed, i as nat), depth))
}

/// The link that is made up from a seed, at most so deep.
fn fake_link(seed: &[u8; 32], depth: usize) -> (r: String)
    ensures
        r@ == made_link(seed@, depth as int),
{
    let kind = match pick_up_to(&branch(seed, 0), 3) {
        0 => LinkKind::Page,
        1 => LinkKind::Script,
        2 => if pick_up_to(&branch(seed, 1), 1) == 0 {
            LinkKind::JsonData
        } else {
            LinkKind::XmlData
        },
        _ => LinkKind::Styles,
    };
    let count = pick_up_to(&branch(seed, 2), depth);
    let below = branch(seed, 3);
    let mut dirs: Vec<String> = Vec::new();
    let mut i: usize = 0;
    while i < count
        invariant
            i <= count,
            dirs@.len() == i,
            forall|j: int|
                0 <= j < i ==> (#[trigger] dirs@[j])@ == made_directory(
                    branch_of(below@, j as nat),
                ),
        decreases count - i,
    {
        let own = branch(&below, i as u64);
        let len = pick_up_to(&branch(&own, 0), 3) as u64 + 5;
        dirs.push(random_name(&branch(&own, 1), len));
        i += 1;
    }
    let name = random_name(&branch(seed, 4), 10);
    assert(text::views(dirs@) =~= made_directories(seed@, depth as int));
    build_link(kind, &dirs, name.as_str())
}

/// The links that are made up from a seed, at most so deep.
fn fake_links(seed: &[u8; 32], count: usize, depth: usize) -> (r: Vec<String>)
    ensures
        text::views(r@) == made_links(seed@, count as nat, depth as int),
{
    let mut links: Vec<String> = Vec::new();
    let mut i: usize = 0;
    while i < count
        invariant
            i <= count,
            links@.len() == i,
            forall|j: int|
                0 <= j < i ==> (#[trigger] links@[j])@ == made_link(
                    branch_of(seed@, j as nat),
                    depth as int,
                ),
        decreases count - i,
    {
        links.push(fake_link(&branch(seed, i as u64), depth));
        i += 1;
    }
    assert(text::views(links@) =~= made_links(seed@, count as nat, depth as int));
    links
}

/// Made-up links, at most so deep.
pub fn generate_fake_links(count: usize, depth: usize) -> (r: Vec<String>)
    ensures
        text::views(r@) == made_links(seed_of("links"@), count as nat, depth as int),
{
    fake_links(&seed_for("links"), count, depth)
}

/// A text with blanks for its underscores and hyphens.
pub open spec fn spaced(s: Seq<char>) -> Seq<char> {
    s.map_values(
        |c: char|
            if c == '_' || c == '-' {
                ' '
            } else {
                c
            },
    )
}

/// What a link is called: the last part of its path, without the extension.
pub open spec fn link_text_of(link: Seq<char>) -> Seq<char> {
    spaced(text::pieces(text::pieces(link, '/').last(), '.')[0])
}

/// What a link is called.
pub fn link_text(link: &str) -> (r: String)
    ensures
        r@ == link_text_of(link@),
{
    proof {
        text_laws::lemma_pieces(link@, '/');
    }
    let parts = text::split_on(link, '/');
    assert(text::views(parts@).len() == parts@.len());
    let last = parts.len() - 1;
    assert(text::views(parts@)[last as int] == parts@[last as int]@);
    let file = parts[last].as_str();
    proof {
        text_laws::lemma_pieces(file@, '.');
    }
    let names = text::split_on(file, '.');
    assert(text::views(names@).len() == names@.len());
    assert(text::views(names@)[0] == names@[0]@);
    let chars = text::chars_of(names[0].as_str());
    let mut out = String::new();
    let mut i: usize = 0;
    while i < chars.len()
        invariant
            i <= chars@.len(),
            out@.len() == i,
            forall|j: int|
                0 <= j < i ==> #[trigger] out@[j] == (if chars@[j] == '_' || chars@[j] == '-' {
                    ' '
                } else {
                    chars@[j]
                }),
        decreases chars@.len() - i,
    {
        let c = chars[i];
        if c == '_' || c == '-' {
            out.push(' ');
        } else {
            out.push(c);
        }
        i += 1;
    }
    assert(out@ =~= spaced(chars@));
    out
}

/// A link as an item of a list.
pub open spec fn link_item(link: Seq<char>) -> Seq<char> {
    "<li><a href=\""@ + link + "\">"@ + link_text_of(link) + "</a></li>"@
}

/// Links as items of a list.
pub open spec fn link_items(links: Seq<Seq<char>>) -> Seq<char> {
    text::joined(links.map_values(|link: Seq<char>| link_item(link)), "\n"@)
}

/// Links as items of a list.
fn list_links(links: &Vec<String>) -> (r: String)
    ensures
        r@ == link_items(text::views(links@)),
{
    let mut items: Vec<String> = Vec::new();
    let mut i: usize = 0;
    while i < links.len()
        invariant
            i <= links@.len(),
            items@.len() == i,
            forall|j: int| 0 <= j < i ==> (#[trigger] items@[j])@ == link_item(links@[j]@),
        decreases links@.len() - i,
    {
        let mut item = "<li><a href=\"".to_string();
        item.append(links[i].as_str());
        item.append("\">");
        item.append(link_text(links[i].as_str()).as_str());
        item.append("</a></li>");
        items.push(item);
        i += 1;
    }
    assert(text::views(items@) =~= text::views(links@).map_values(
        |link: Seq<char>| link_item(link),
    ));
    text::join(&items, "\n")
}

/// What stands in front of the title of a page.
pub open spec fn page_head() -> Seq<char> {
    "<!DOCTYPE html>\n<html lang=\"en\">\n<head>\n  <meta charset=\"UTF-8\">\n  <meta name=\"robots\" content=\"noindex, nofollow\">\n  <meta name=\"generator\" content=\"AI Scraping Defense Rust Tarpit\">\n  <title>"@
}

/// What stands between the title of a page and its body.
pub open spec fn page_style() -> Seq<char> {
    " - System Documentation</title>\n  <style>\n    body { font-family: ui-monospace, SFMono-Regular, Menlo, monospace; background:#f4f4f1; color:#2f3437; padding:2rem; line-height:1.6; }\n    h1 { border-bottom:1px solid #bbb; padding-bottom:.5rem; }\n    a { color:#255f85; }\n    .footer-link { visibility:hidden; }\n  </style>\n</head>\n<body data-path=\""@
}

/// What stands behind the links of a page.
pub open spec fn page_foot() -> Seq<char> {
    "</ul>\n  <a class=\"footer-link\" href=\"/internal-docs/admin\">Admin Console</a>\n</body>\n</html>"@
}

/// A page: its title, the path it was asked for, what it says, and its links.
pub open spec fn page_of(
    title: Seq<char>,
    path: Seq<char>,
    paragraphs: Seq<char>,
    links: Seq<Seq<char>>,
) -> Seq<char> {
    page_head() + title + page_style() + path + "\">\n  <h1>"@ + title + "</h1>\n  "@ + paragraphs
        + "\n  <h2>Further Reading:</h2>\n  <ul>"@ + link_items(links) + page_foot()
}

/// A page: its title, the path it was asked for, what it says, and its links.
pub fn build_page(title: &str, path: &str, paragraphs: &str, links: &Vec<String>) -> (r: String)
    ensures
        r@ == page_of(title@, path@, paragraphs@, text::views(links@)),
{
    let mut out =
        "<!DOCTYPE html>\n<html lang=\"en\">\n<head>\n  <meta charset=\"UTF-8\">\n  <meta name=\"robots\" content=\"noindex, nofollow\">\n  <meta name=\"generator\" content=\"AI Scraping Defense Rust Tarpit\">\n  <title>".to_string();
    out.append(title);
    out.append(
        " - System Documentation</title>\n  <style>\n    body { font-family: ui-monospace, SFMono-Regular, Menlo, monospace; background:#f4f4f1; color:#2f3437; padding:2rem; line-height:1.6; }\n    h1 { border-bottom:1px solid #bbb; padding-bottom:.5rem; }\n    a { color:#255f85; }\n    .footer-link { visibility:hidden; }\n  </style>\n</head>\n<body data-path=\"",
    );
    out.append(path);
    out.append("\">\n  <h1>");
    out.append(title);
    out.append("</h1>\n  ");
    out.append(paragraphs);
    out.append("\n  <h2>Further Reading:</h2>\n  <ul>");
    out.append(list_links(links).as_str());
    out.append(
        "</ul>\n  <a class=\"footer-link\" href=\"/internal-docs/admin\">Admin Console</a>\n</body>\n</html>",
    );
    out
}

/// The words that paragraphs are made of.
pub open spec fn paragraph_words() -> Seq<Seq<char>> {
    seq![
        "adaptive"@,
        "runtime"@,
        "policy"@,
        "crawler"@,
        "routing"@,
        "matrix"@,
        "cache"@,
        "tenant"@,
        "validation"@,
        "heuristic"@,
        "sequence"@,
        "signal"@,
        "archive"@,
        "manifest"@,
        "operator"@,
        "threshold"@,
    ]
}

/// Words one after the other, with a full stop.
pub open spec fn sentence(words: Seq<Seq<char>>) -> Seq<char> {
    text::joined(words, " "@) + "."@
}

/// A made-up paragraph: 42 to 76 of the words.
pub open spec fn is_paragraph(s: Seq<char>) -> bool {
    exists|words: Seq<Seq<char>>|
        42 <= words.len() <= 76 && (forall|i: int|
            0 <= i < words.len() ==> paragraph_words().contains(#[trigger] words[i])) && s
            == #[trigger] sentence(words)
}

/// The words of the paragraph that is made up from a seed.
pub open spec fn made_words(seed: Seq<u8>) -> Seq<Seq<char>> {
    Seq::new(
        (pick_of(branch_of(seed, 0), 35) + 42) as nat,
        |i: int| paragraph_words()[pick_of(branch_of(branch_of(seed, 1), i as nat), 16)],
    )
}

/// The paragraph that is made up from a seed.
fn fake_paragraph(seed: &[u8; 32]) -> (r: String)
    ensures
        r@ == sentence(made_words(seed@)),
{
    let words = [
        "adaptive",
        "runtime",
        "policy",
        "crawler",
        "routing",
        "matrix",
        "cache",
        "tenant",
        "validation",
        "heuristic",
        "sequence",
        "signal",
        "archive",
        "manifest",
        "operator",
        "threshold",
    ];
    assert(text::str_views(words@) =~= paragraph_words());
    let len = pick_up_to(&branch(seed, 0), 34) + 42;
    let own = branch(seed, 1);
    let mut picked: Vec<String> = Vec::new();
    let mut i: usize = 0;
    while i < len
        invariant
            i <= len,
            words@.len() == 16,
            text::str_views(words@) == paragraph_words(),
            picked@.len() == i,
            forall|j: int|
                0 <= j < i ==> (#[trigger] picked@[j])@ == paragraph_words()[pick_of(
                    branch_of(own@, j as nat),
                    16,
                )],
        decreases len - i,
    {
        let k = pick_up_to(&branch(&own, i as u64), 15);
        assert(paragraph_words()[k as int] == words@[k as int]@);
        picked.push(words[k].to_string());
        i += 1;
    }
    assert(text::views(picked@) =~= made_words(seed@));
    let mut out = text::join(&picked, " ");
    out.append(".");
    out
}

/// How many paragraphs a made-up page has.
pub const PAGE_PARAGRAPHS: usize = 8;

/// How many links a page has.
pub const PAGE_LINKS: usize = 9;

/// How deep the links of a page go.
pub const LINK_DEPTH: usize = 3;

/// A text between the marks of a paragraph.
pub open spec fn marked(s: Seq<char>) -> Seq<char> {
    "<p>"@ + s + "</p>"@
}

/// Paragraphs one below the other.
pub open spec fn stacked(list: Seq<Seq<char>>) -> Seq<char> {
    text::joined(list.map_values(|p: Seq<char>| marked(p)), "\n"@)
}

/// Made-up paragraphs one below the other.
pub open spec fn are_paragraphs(s: Seq<char>) -> bool {
    exists|list: Seq<Seq<char>>|
        list.len() == PAGE_PARAGRAPHS && (forall|i: int|
            0 <= i < list.len() ==> is_paragraph(#[trigger] list[i])) && s
            == #[trigger] stacked(list)
}

/// The paragraphs that are made up from a seed.
pub open spec fn made_paragraphs(seed: Seq<u8>) -> Seq<Seq<char>> {
    Seq::new(
        PAGE_PARAGRAPHS as nat,
        |i: int| sentence(made_words(branch_of(seed, i as nat))),
    )
}

/// Made-up paragraphs one below the other.
fn fake_paragraphs(seed: &[u8; 32]) -> (r: String)
    ensures
        r@ == stacked(made_paragraphs(seed@)),
{
    let mut list: Vec<String> = Vec::new();
    let mut i: usize = 0;
    while i < PAGE_PARAGRAPHS
        invariant
            i <= PAGE_PARAGRAPHS,
            list@.len() == i,
            forall|j: int|
                0 <= j < i ==> (#[trigger] list@[j])@ == marked(
                    sentence(made_words(branch_of(seed@, j as nat))),
                ),
        decreases PAGE_PARAGRAPHS - i,
    {
        let mut item = "<p>".to_string();
        item.append(fake_paragraph(&branch(seed, i as u64)).as_str());
        item.append("</p>");
        list.push(item);
        i += 1;
    }
    assert(text::views(list@) =~= made_paragraphs(seed@).map_values(
        |p: Seq<char>| marked(p),
    ));
    text::join(&list, "\n")
}

/// A page that may be drawn for a path and what it is to say.
pub open spec fn is_page(
    page: Seq<char>,
    path_hint: Option<Seq<char>>,
    content: Option<Seq<char>>,
) -> bool {
    exists|title: Seq<char>, said: Seq<char>, links: Seq<Seq<char>>|
        {
            &&& is_name(title) && title.len() == 10
            &&& match content {
                Some(s) => said == s,
                None => are_paragraphs(said),
            }
            &&& links.len() == PAGE_LINKS
            &&& forall|i: int|
                0 <= i < links.len() ==> is_fake_link(#[trigger] links[i], LINK_DEPTH as int)
            &&& page == #[trigger] page_of(
                title,
                settings::string_setting(path_hint, "/"@),
                said,
                links,
            )
        }
}

/// The page that is made up for a path; what it says where that is given, else
/// made-up paragraphs.
pub open spec fn made_page(path_hint: Option<Seq<char>>, content: Option<Seq<char>>) -> Seq<char> {
    let path = settings::string_setting(path_hint, "/"@);
    let seed = seed_of(path);
    page_of(
        made_name(branch_of(seed, 0), 10),
        path,
        match content {
            Some(said) => said,
            None => stacked(made_paragraphs(branch_of(seed, 2))),
        },
        made_links(branch_of(seed, 1), PAGE_LINKS as nat, LINK_DEPTH as int),
    )
}

/// The page for a path that says something; made-up paragraphs where nothing is
/// given. The same path and the same content always give the same page.
pub fn generate_page_with_content(path_hint: Option<&str>, content: Option<String>) -> (r: String)
    ensures
        r@ == made_page(text::opt_str_view(path_hint), text::opt_view(content)),
{
    let path = settings::env_string(path_hint, "/");
    let seed = seed_for(path.as_str());
    let title = random_name(&branch(&seed, 0), 10);
    let links = fake_links(&branch(&seed, 1), PAGE_LINKS, LINK_DEPTH);
    let paragraphs = match content {
        Some(said) => said,
        None => fake_paragraphs(&branch(&seed, 2)),
    };
    build_page(title.as_str(), path.as_str(), paragraphs.as_str(), &links)
}

/// The page for a path. The same path always gives the same page.
pub fn generate_page(path_hint: Option<&str>) -> (r: String)
    ensures
        r@ == made_page(text::opt_str_view(path_hint), None),
{
    generate_page_with_content(path_hint, None)
}

/// What the names of scripts start with.
pub open spec fn script_prefixes() -> Seq<Seq<char>> {
    seq![
        "analytics_bundle"@,
        "vendor_lib"@,
        "core_framework"@,
        "ui_component_pack"@,
        "runtime_utils"@,
        "auth_client_sdk"@,
        "graph_rendering_engine"@,
    ]
}

/// The name of a script.
pub open spec fn script_name(prefix: Seq<char>, name: Seq<char>) -> Seq<char> {
    prefix + "_"@ + name + ".js"@
}

/// The name of a script that is made up from a seed.
pub open spec fn made_script_name(seed: Seq<u8>) -> Seq<char> {
    script_name(
        script_prefixes()[pick_of(branch_of(seed, 0), 7)],
        made_name(branch_of(seed, 1), 8),
    )
}

/// The name of a script that is made up from a seed.
fn fake_script_name(seed: &[u8; 32]) -> (r: String)
    ensures
        r@ == made_script_name(seed@),
{
    let prefixes = [
        "analytics_bundle",
        "vendor_lib",
        "core_framework",
        "ui_component_pack",
        "runtime_utils",
        "auth_client_sdk",
        "graph_rendering_engine",
    ];
    assert(text::str_views(prefixes@) =~= script_prefixes());
    let k = pick_up_to(&branch(seed, 0), 6);
    assert(script_prefixes()[k as int] == prefixes@[k as int]@);
    let name = random_name(&branch(seed, 1), 8);
    let mut out = prefixes[k].to_string();
    out.append("_");
    out.append(name.as_str());
    out.append(".js");
    out
}

/// A made-up name for a script.
pub fn realistic_js_filename() -> (r: String)
    ensures
        r@ == made_script_name(seed_of("script"@)),
{
    fake_script_name(&seed_for("script"))
}

/// A line that defines a variable.
pub open spec fn variable_line(name: Seq<char>, value: int) -> Seq<char> {
    "  var "@ + name + " = "@ + text::decimal(value as nat) + ";\n"@
}

/// The lines of the first `n` variables.
pub open spec fn variable_lines(variables: Seq<(Seq<char>, int)>, n: nat) -> Seq<char>
    decreases n,
{
    if n == 0 || n > variables.len() {
        Seq::empty()
    } else {
        variable_lines(variables, (n - 1) as nat) + variable_line(
            variables[n - 1].0,
            variables[n - 1].1,
        )
    }
}

/// A script without fillings.
pub open spec fn script_body(
    name: Seq<char>,
    generated_at: Seq<char>,
    variables: Seq<(Seq<char>, int)>,
) -> Seq<char> {
    "// Fake module: "@ + name + "\n// Generated: "@ + generated_at + "\n(function() {\n"@
        + variable_lines(variables, variables.len()) + "})();\n"@
}

/// The variable of a script that is made up from a seed.
pub open spec fn made_variable(seed: Seq<u8>) -> (Seq<char>, int) {
    (
        made_word(branch_of(seed, 1), (pick_of(branch_of(seed, 0), 7) + 4) as nat),
        pick_of(branch_of(seed, 2), 1000),
    )
}

/// The variables of a script that are made up from a seed.
pub open spec fn made_variables(seed: Seq<u8>) -> Seq<(Seq<char>, int)> {
    Seq::new(
        (pick_of(branch_of(seed, 0), 14) + 5) as nat,
        |i: int| made_variable(branch_of(branch_of(seed, 1), i as nat)),
    )
}

/// How many bytes a text is short of a size.
pub open spec fn shortfall(s: Seq<char>, size: int) -> nat {
    if text::byte_len(s) < size {
        (size - text::byte_len(s)) as nat
    } else {
        0
    }
}

/// The line of a comment that fills a script up.
pub open spec fn filling_line(seed: Seq<u8>, k: nat) -> Seq<char> {
    "// "@ + made_word(branch_of(seed, k), 60) + "\n"@
}

/// The text with one line more after another, from a place on, until it has a size.
pub open spec fn filled(s: Seq<char>, seed: Seq<u8>, k: nat, size: int) -> Seq<char>
    decreases shortfall(s, size),
{
    if text::byte_len(s) >= size {
        s
    } else {
        proof {
            lemma_filling_grows(s, seed, k);
        }
        filled(s + filling_line(seed, k), seed, k + 1, size)
    }
}

/// A line more makes a text longer.
pub proof fn lemma_filling_grows(s: Seq<char>, seed: Seq<u8>, k: nat)
    ensures
        text::byte_len(s + filling_line(seed, k)) > text::byte_len(s),
{
    assert(filling_line(seed, k).len() >= 60);
    text_laws::lemma_bytes_grow(s, filling_line(seed, k));
}

/// The script of a size that says when it was made.
pub open spec fn made_script(size: nat, generated_at: Seq<char>) -> Seq<char> {
    let seed = seed_of(text::decimal(size));
    filled(
        script_body(
            made_script_name(branch_of(seed, 0)),
            generated_at,
            made_variables(branch_of(seed, 1)),
        ),
        branch_of(seed, 2),
        0,
        size as int,
    )
}

/// The lines of the variables that are made up from a seed.
fn fake_variables(seed: &[u8; 32]) -> (r: String)
    ensures
        r@ == variable_lines(made_variables(seed@), made_variables(seed@).len()),
{
    let ghost variables = made_variables(seed@);
    let count = pick_up_to(&branch(seed, 0), 13) + 5;
    let own = branch(seed, 1);
    let mut lines = String::new();
    let mut i: usize = 0;
    while i < count
        invariant
            i <= count,
            variables.len() == count,
            forall|j: int|
                0 <= j < count ==> #[trigger] variables[j] == made_variable(
                    branch_of(own@, j as nat),
                ),
            lines@ == variable_lines(variables, i as nat),
        decreases count - i,
    {
        let ghost before = lines@;
        let at = branch(&own, i as u64);
        assert(variables[i as int] == made_variable(at@));
        let len = pick_up_to(&branch(&at, 0), 6) as u64 + 4;
        let word = random_alpha(&branch(&at, 1), len);
        let value = pick_up_to(&branch(&at, 2), 999);
        lines.append("  var ");
        lines.append(word.as_str());
        lines.append(" = ");
        lines.append(text::u64_text(value as u64).as_str());
        lines.append(";\n");
        assert(lines@ =~= before + variable_line(word@, value as int));
        i += 1;
    }
    lines
}

/// The script of a size that says when it was made. The same size and the same
/// time always give the same script.
pub fn fake_js_module_at(target_size: usize, generated_at: &str) -> (r: String)
    ensures
        r@ == made_script(target_size as nat, generated_at@),
{
    let seed = seed_for(text::u64_text(target_size as u64).as_str());
    let mut content = "// Fake module: ".to_string();
    content.append(fake_script_name(&branch(&seed, 0)).as_str());
    content.append("\n// Generated: ");
    content.append(generated_at);
    content.append("\n(function() {\n");
    content.append(fake_variables(&branch(&seed, 1)).as_str());
    content.append("})();\n");
    let filling = branch(&seed, 2);
    let mut k: u64 = 0;
    let ghost whole = made_script(target_size as nat, generated_at@);
    while text::byte_count(content.as_str()) < target_size
        invariant
            k <= text::byte_len(content@),
            filled(content@, filling@, k as nat, target_size as int) == whole,
        decreases shortfall(content@, target_size as int),
    {
        let ghost held = content@;
        proof {
            lemma_filling_grows(held, filling@, k as nat);
        }
        let word = random_alpha(&branch(&filling, k), 60);
        content.append("// ");
        content.append(word.as_str());
        content.append("\n");
        assert(content@ =~= held + filling_line(filling@, k as nat));
        k += 1;
    }
    content
}

/// A script of a size that says when it was made: now.
pub fn fake_js_module(target_size: usize) -> (r: String)
    ensures
        exists|generated_at: Seq<char>|
            r@ == #[trigger] made_script(target_size as nat, generated_at),
{
    let generated_at = outside::now_text();
    fake_js_module_at(target_size, generated_at.as_str())
}

/// A character as it is written in a page.
pub open spec fn escaped_char(c: char) -> Seq<char> {
    if c == '&' {
        "&amp;"@
    } else if c == '<' {
        "&lt;"@
    } else if c == '>' {
        "&gt;"@
    } else {
        seq![c]
    }
}

/// A text as it is written in a page.
pub open spec fn escaped(s: Seq<char>) -> Seq<char>
    decreases s.len(),
{
    if s.len() == 0 {
        Seq::empty()
    } else {
        escaped(s.drop_last()) + escaped_char(s.last())
    }
}

/// A text as it is written in a page.
pub fn html_escape(value: String) -> (r: String)
    ensures
        r@ == escaped(value@),
{
    let chars = text::chars_of(value.as_str());
    let mut out = String::new();
    let mut i: usize = 0;
    while i < chars.len()
        invariant
            i <= chars@.len(),
            out@ == escaped(chars@.take(i as int)),
        decreases chars@.len() - i,
    {
        let ghost now = chars@.take(i + 1);
        let ghost before = out@;
        assert(now.drop_last() =~= chars@.take(i as int));
        let c = chars[i];
        if c == '&' {
            out.append("&amp;");
        } else if c == '<' {
            out.append("&lt;");
        } else if c == '>' {
            out.append("&gt;");
        } else {
            out.push(c);
        }
        assert(out@ =~= before + escaped_char(now.last()));
        i += 1;
    }
    assert(chars@.take(i as int) =~= chars@);
    out
}

/// How many words of the corpus make a paragraph.
pub const CHUNK: usize = 45;

/// The words of the corpus as paragraphs.
pub open spec fn corpus_paragraphs(words: Seq<Seq<char>>) -> Seq<Seq<char>>
    decreases words.len(),
{
    if words.len() == 0 {
        Seq::empty()
    } else {
        let n = if words.len() < CHUNK {
            words.len() as int
        } else {
            CHUNK as int
        };
        seq![marked(escaped(text::joined(words.take(n), " "@)) + "."@)] + corpus_paragraphs(
            words.skip(n),
        )
    }
}

/// What a page says with words of the corpus.
pub open spec fn corpus_content(words: Seq<Seq<char>>) -> Option<Seq<char>> {
    if words.len() == 0 {
        None
    } else {
        Some(text::joined(corpus_paragraphs(words), "\n"@))
    }
}

/// What a page says with words of the corpus; nothing without words.
pub fn markov_content(words: &Vec<String>) -> (r: Option<String>)
    ensures
        text::opt_view(r) == corpus_content(text::views(words@)),
{
    let ghost views = text::views(words@);
    let total: usize = words.len();
    assert(views.len() == total);
    if total == 0 {
        return None;
    }
    let mut paragraphs: Vec<String> = Vec::new();
    let mut i: usize = 0;
    assert(views.skip(0) =~= views);
    assert(text::views(paragraphs@) + corpus_paragraphs(views) =~= corpus_paragraphs(views));
    while i < total
        invariant
            i <= total == words@.len(),
            views == text::views(words@),
            views.len() == total,
            text::views(paragraphs@) + corpus_paragraphs(views.skip(i as int)) == corpus_paragraphs(
                views,
            ),
        decreases total - i,
    {
        let left: usize = total - i;
        let n: usize = if left < CHUNK {
            left
        } else {
            CHUNK
        };
        let mut chunk: Vec<String> = Vec::new();
        let mut k: usize = 0;
        while k < n
            invariant
                k <= n,
                i + n <= total == words@.len(),
                chunk@.len() == k,
                forall|j: int| 0 <= j < k ==> (#[trigger] chunk@[j])@ == words@[i + j]@,
            decreases n - k,
        {
            chunk.push(words[i + k].clone());
            k += 1;
        }
        let ghost rest = views.skip(i as int);
        assert(text::views(chunk@) =~= rest.take(n as int));
        let joined = text::join(&chunk, " ");
        let mut paragraph = "<p>".to_string();
        let ghost words_said = joined@;
        paragraph.append(html_escape(joined).as_str());
        paragraph.append(".</p>");
        let ghost before = text::views(paragraphs@);
        proof {
            reveal_strlit(".</p>");
            reveal_strlit(".");
            reveal_strlit("</p>");
            assert(".</p>"@ =~= "."@ + "</p>"@);
            assert(paragraph@ =~= marked(escaped(words_said) + "."@));
        }
        let ghost written = paragraph@;
        paragraphs.push(paragraph);
        proof {
            assert(text::views(paragraphs@) =~= before.push(written));
            assert(rest.skip(n as int) =~= views.skip(i + n));
            assert(before.push(written) + corpus_paragraphs(views.skip(i + n)) =~= before + (
            seq![written] + corpus_paragraphs(rest.skip(n as int))));
        }
        i += n;
    }
    assert(views.skip(i as int).len() == 0);
    assert(text::views(paragraphs@) =~= corpus_paragraphs(views));
    Some(text::join(&paragraphs, "\n"))
}

/// Nothing in an escaped text opens or closes a tag.
pub proof fn law_escaped_text_has_no_tags(s: Seq<char>)
    ensures
        !escaped(s).contains('<'),
        !escaped(s).contains('>'),
    decreases s.len(),
{
    reveal_strlit("&amp;");
    reveal_strlit("&lt;");
    reveal_strlit("&gt;");
    assert("&amp;"@ =~= seq!['&', 'a', 'm', 'p', ';']);
    assert("&lt;"@ =~= seq!['&', 'l', 't', ';']);
    assert("&gt;"@ =~= seq!['&', 'g', 't', ';']);
    if s.len() > 0 {
        law_escaped_text_has_no_tags(s.drop_last());
        let front = escaped(s.drop_last());
        let all = escaped(s);
        assert forall|i: int| 0 <= i < all.len() implies all[i] != '<' && all[i] != '>' by {
            if i < front.len() {
                assert(all[i] == front[i]);
                assert(front.contains(front[i]));
            } else {
                assert(all[i] == escaped_char(s.last())[i - front.len()]);
            }
        }
    }
}

/// A text without marks is written as it is.
pub proof fn law_plain_text_is_kept(s: Seq<char>)
    requires
        !s.contains('&'),
        !s.contains('<'),
        !s.contains('>'),
    ensures
        escaped(s) == s,
    decreases s.len(),
{
    if s.len() > 0 {
        let front = s.drop_last();
        assert forall|c: char| front.contains(c) implies s.contains(c) by {
            let i = choose|i: int| 0 <= i < front.len() && front[i] == c;
            assert(s[i] == c);
        }
        law_plain_text_is_kept(front);
        assert(s.contains(s.last()));
        assert(escaped(s) =~= s);
    }
}

/// What a seed picks below a number is below it.
proof fn lemma_pick(seed: Seq<u8>, n: int)
    requires
        n > 0,
    ensures
        0 <= pick_of(seed, n) < n,
{
}

/// A made-up name is one.
proof fn lemma_made_name(seed: Seq<u8>, len: nat)
    ensures
        is_name(made_name(seed, len)),
        made_name(seed, len).len() == len,
{
    let name = made_name(seed, len);
    assert forall|i: int| 0 <= i < name.len() implies is_name_char(#[trigger] name[i]) by {
        let k = pick_of(branch_of(seed, i as nat), 62);
        lemma_pick(branch_of(seed, i as nat), 62);
        assert(name[i] == name_char_at(k));
    }
}

/// A made-up link is one, at most so deep.
pub proof fn law_links_are_well_formed(seed: Seq<u8>, depth: int)
    requires
        depth >= 0,
    ensures
        is_fake_link(made_link(seed, depth), depth),
{
    let dirs = made_directories(seed, depth);
    lemma_pick(branch_of(seed, 2), depth + 1);
    lemma_made_name(branch_of(seed, 4), 10);
    assert forall|i: int| 0 <= i < dirs.len() implies is_name(#[trigger] dirs[i]) && 5
        <= dirs[i].len() <= 8 by {
        let own = branch_of(branch_of(seed, 3), i as nat);
        lemma_pick(branch_of(own, 0), 4);
        lemma_made_name(branch_of(own, 1), (pick_of(branch_of(own, 0), 4) + 5) as nat);
        assert(dirs[i] == made_directory(own));
    }
    assert(are_directories(dirs));
    assert(made_link(seed, depth) == link_of(
        made_kind(seed),
        dirs,
        made_name(branch_of(seed, 4), 10),
    ));
}

/// A made-up paragraph is one.
proof fn lemma_made_paragraph(seed: Seq<u8>)
    ensures
        is_paragraph(sentence(made_words(seed))),
{
    let words = made_words(seed);
    lemma_pick(branch_of(seed, 0), 35);
    assert forall|i: int| 0 <= i < words.len() implies paragraph_words().contains(
        #[trigger] words[i],
    ) by {
        let k = pick_of(branch_of(branch_of(seed, 1), i as nat), 16);
        lemma_pick(branch_of(branch_of(seed, 1), i as nat), 16);
        assert(words[i] == paragraph_words()[k]);
    }
}

/// A made-up page has a title, says what it is to say, or eight paragraphs of
/// the known words, and has nine links that lead back into the tarpit.
pub proof fn law_pages_are_well_formed(path_hint: Option<Seq<char>>, content: Option<Seq<char>>)
    ensures
        is_page(made_page(path_hint, content), path_hint, content),
{
    let path = settings::string_setting(path_hint, "/"@);
    let seed = seed_of(path);
    let title = made_name(branch_of(seed, 0), 10);
    let list = made_paragraphs(branch_of(seed, 2));
    let links = made_links(branch_of(seed, 1), PAGE_LINKS as nat, LINK_DEPTH as int);
    let said = match content {
        Some(s) => s,
        None => stacked(list),
    };
    lemma_made_name(branch_of(seed, 0), 10);
    assert forall|i: int| 0 <= i < list.len() implies is_paragraph(#[trigger] list[i]) by {
        lemma_made_paragraph(branch_of(branch_of(seed, 2), i as nat));
    }
    assert(are_paragraphs(stacked(list)));
    assert forall|i: int| 0 <= i < links.len() implies is_fake_link(
        #[trigger] links[i],
        LINK_DEPTH as int,
    ) by {
        law_links_are_well_formed(branch_of(branch_of(seed, 1), i as nat), LINK_DEPTH as int);
    }
    assert(made_page(path_hint, content) == page_of(title, path, said, links));
}

/// A text is filled up to the size, and nothing of it is lost.
pub proof fn law_scripts_reach_their_size(s: Seq<char>, seed: Seq<u8>, k: nat, size: int)
    ensures
        text::byte_len(filled(s, seed, k, size)) >= size,
        s.is_prefix_of(filled(s, seed, k, size)),
    decreases shortfall(s, size),
{
    if text::byte_len(s) < size {
        let longer = s + filling_line(seed, k);
        lemma_filling_grows(s, seed, k);
        law_scripts_reach_their_size(longer, seed, k + 1, size);
        let whole = filled(longer, seed, k + 1, size);
        assert(s =~= whole.subrange(0, s.len() as int)) by {
            assert(longer == whole.subrange(0, longer.len() as int));
            assert forall|i: int| 0 <= i < s.len() implies s[i] == whole[i] by {
                assert(longer[i] == whole.subrange(0, longer.len() as int)[i]);
            }
        }
    } else {
        assert(s =~= s.subrange(0, s.len() as int));
    }
}

/// Every link leads back into the tarpit.
pub proof fn law_links_lead_back(link: Seq<char>, depth: int)
    requires
        is_fake_link(link, depth),
    ensures
        "/tarpit/"@.is_prefix_of(link),
{
    let (kind, dirs, name) = choose|kind: LinkKind, dirs: Seq<Seq<char>>, name: Seq<char>|
        dirs.len() <= depth && are_directories(dirs) && is_name(name) && name.len() == 10 && link
            == #[trigger] link_of(kind, dirs, name);
    assert(link.subrange(0, "/tarpit/"@.len() as int) =~= "/tarpit/"@);
}

} // verus!
