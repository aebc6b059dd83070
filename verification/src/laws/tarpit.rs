//! What the tarpit is owed: links that lead back into it, pages that hold what
//! they are made of, and texts that are no markup.
use vstd::prelude::*;
use crate::tarpit;
use crate::tarpit::LinkKind;
use crate::text;
use crate::text_laws;

verus! {

/// A link leads into the tarpit: by its kind, through its directories, to its
/// name.
pub proof fn law_links_are_built(kind: LinkKind, dirs: Vec<String>, name: &str, link: String)
    requires
        call_ensures(tarpit::build_link, (kind, &dirs, name), link),
    ensures
        ({
            let way = if dirs@.len() == 0 {
                name@
            } else {
                text::joined(text::views(dirs@), "/"@) + "/"@ + name@
            };
            &&& kind is Page ==> link@ == "/tarpit/page/"@ + way + ".html"@
            &&& kind is Script ==> link@ == "/tarpit/js/"@ + way + ".js"@
            &&& kind is JsonData ==> link@ == "/tarpit/data/"@ + way + ".json"@
            &&& kind is XmlData ==> link@ == "/tarpit/data/"@ + way + ".xml"@
            &&& kind is Styles ==> link@ == "/tarpit/styles/"@ + way + ".css"@
        }),
{
    reveal_strlit("/tarpit/");
    reveal_strlit("/");
    reveal_strlit(".");
    reveal_strlit("page");
    reveal_strlit("js");
    reveal_strlit("data");
    reveal_strlit("styles");
    reveal_strlit("html");
    reveal_strlit("json");
    reveal_strlit("xml");
    reveal_strlit("css");
    reveal_strlit("/tarpit/page/");
    reveal_strlit("/tarpit/js/");
    reveal_strlit("/tarpit/data/");
    reveal_strlit("/tarpit/styles/");
    reveal_strlit(".html");
    reveal_strlit(".js");
    reveal_strlit(".json");
    reveal_strlit(".xml");
    reveal_strlit(".css");
    assert("/tarpit/"@ + "page"@ + "/"@ =~= "/tarpit/page/"@);
    assert("/tarpit/"@ + "js"@ + "/"@ =~= "/tarpit/js/"@);
    assert("/tarpit/"@ + "data"@ + "/"@ =~= "/tarpit/data/"@);
    assert("/tarpit/"@ + "styles"@ + "/"@ =~= "/tarpit/styles/"@);
    assert("."@ + "html"@ =~= ".html"@);
    assert("."@ + "js"@ =~= ".js"@);
    assert("."@ + "json"@ =~= ".json"@);
    assert("."@ + "xml"@ =~= ".xml"@);
    assert("."@ + "css"@ =~= ".css"@);
    assert(text::views(dirs@).len() == dirs@.len());
    let way = if dirs@.len() == 0 {
        name@
    } else {
        text::joined(text::views(dirs@), "/"@) + "/"@ + name@
    };
    let front = "/tarpit/"@ + tarpit::kind_directory(kind) + "/"@;
    let back = "."@ + tarpit::kind_extension(kind);
    assert(link@ =~= front + way + back);
}

/// A link is shown as the name that it ends in, without its extension and with
/// spaces for what parts its words.
pub proof fn law_links_are_shown_by_name(
    link: &str,
    way: Seq<char>,
    name: Seq<char>,
    extension: Seq<char>,
    shown: String,
    i: int,
)
    requires
        call_ensures(tarpit::link_text, (link,), shown),
        link@ == way + seq!['/'] + name + seq!['.'] + extension,
        !name.contains('/'),
        !name.contains('.'),
        !extension.contains('/'),
        0 <= i < name.len(),
    ensures
        shown@.len() == name.len(),
        name[i] == '_' || name[i] == '-' ==> shown@[i] == ' ',
        name[i] != '_' && name[i] != '-' ==> shown@[i] == name[i],
{
    let file = name + seq!['.'] + extension;
    let front = way + seq!['/'];
    assert(!file.contains('/')) by {
        if file.contains('/') {
            let k = choose|k: int| 0 <= k < file.len() && file[k] == '/';
            if k < name.len() {
                assert(name[k] == '/');
            } else if k > name.len() {
                assert(extension[k - name.len() - 1] == '/');
            }
        }
    }
    assert(front + file =~= link@);
    text_laws::lemma_pieces_append(front, file, '/');
    assert(front.drop_last() =~= way);
    assert(text::pieces(front, '/').last() =~= Seq::<char>::empty());
    assert(text::pieces(front, '/').last() + file =~= file);
    assert(text::pieces(link@, '/').last() =~= file);
    text_laws::lemma_first_piece(name, extension, '.');
}

/// What stands in the middle of a text occurs in it.
proof fn lemma_occurs(front: Seq<char>, middle: Seq<char>, back: Seq<char>)
    ensures
        text::occurs(middle, front + middle + back),
{
    let whole = front + middle + back;
    assert(whole.subrange(front.len() as int, (front.len() + middle.len()) as int) =~= middle);
    assert(text::stands_at(middle, whole, front.len() as int));
}

/// What occurs in a part of a text occurs in the text.
proof fn lemma_occurs_within(
    needle: Seq<char>,
    part: Seq<char>,
    front: Seq<char>,
    back: Seq<char>,
)
    requires
        text::occurs(needle, part),
    ensures
        text::occurs(needle, front + part + back),
{
    let whole = front + part + back;
    let at = choose|at: int| #[trigger] text::stands_at(needle, part, at);
    assert(whole.subrange(front.len() + at, front.len() + at + needle.len()) =~= part.subrange(
        at,
        at + needle.len(),
    ));
    assert(text::stands_at(needle, whole, front.len() + at));
}

/// Each part occurs in the joined text.
proof fn lemma_joined_holds(parts: Seq<Seq<char>>, separator: Seq<char>, i: int)
    requires
        0 <= i < parts.len(),
    ensures
        text::occurs(parts[i], text::joined(parts, separator)),
    decreases parts.len(),
{
    let none = Seq::<char>::empty();
    if parts.len() == 1 {
        lemma_occurs(none, parts[0], none);
        assert(none + parts[0] + none =~= parts[0]);
    } else {
        let before = text::joined(parts.drop_last(), separator);
        let whole = text::joined(parts, separator);
        if i < parts.len() - 1 {
            assert(parts.drop_last()[i] == parts[i]);
            lemma_joined_holds(parts.drop_last(), separator, i);
            lemma_occurs_within(parts[i], before, none, separator + parts.last());
            assert(none + before + (separator + parts.last()) =~= whole);
        } else {
            lemma_occurs(before + separator, parts.last(), none);
            assert(before + separator + parts.last() + none =~= whole);
        }
    }
}

/// A page is kept out of indexes, names its title and the path it was asked for,
/// says its paragraphs, and holds every link with its text.
pub proof fn law_pages_hold_their_parts(
    title: &str,
    path: &str,
    paragraphs: &str,
    links: Vec<String>,
    i: int,
    shown: String,
    link: &str,
    page: String,
)
    requires
        call_ensures(tarpit::build_page, (title, path, paragraphs, &links), page),
        0 <= i < links@.len(),
        link@ == links@[i]@,
        call_ensures(tarpit::link_text, (link,), shown),
    ensures
        text::occurs("noindex, nofollow"@, page@),
        text::occurs("<h1>"@ + title@ + "</h1>"@, page@),
        text::occurs("<body data-path=\""@ + path@ + "\">"@, page@),
        text::occurs(paragraphs@, page@),
        text::occurs(
            "<li><a href=\""@ + link@ + "\">"@ + shown@ + "</a></li>"@,
            page@,
        ),
{
    let views = text::views(links@);
    let items = views.map_values(|link: Seq<char>| tarpit::link_item(link));
    let list = tarpit::link_items(views);
    let none = Seq::<char>::empty();
    reveal_strlit("\">\n  <h1>");
    reveal_strlit("\">");
    reveal_strlit("\n  <h1>");
    reveal_strlit("\n  ");
    reveal_strlit("<h1>");
    reveal_strlit("</h1>\n  ");
    reveal_strlit("</h1>");
    assert("\">"@ + "\n  "@ + "<h1>"@ =~= "\">\n  <h1>"@);
    assert("</h1>"@ + "\n  "@ =~= "</h1>\n  "@);
    let rest_of_page = "\n  <h2>Further Reading:</h2>\n  <ul>"@ + list + tarpit::page_foot();
    let a = tarpit::page_head() + title@ + tarpit::page_style() + path@;
    let heading = "<h1>"@ + title@ + "</h1>"@;
    lemma_occurs(
        a + "\">"@ + "\n  "@,
        heading,
        "\n  "@ + paragraphs@ + rest_of_page,
    );
    assert(a + "\">"@ + "\n  "@ + heading + ("\n  "@ + paragraphs@ + rest_of_page) =~= page@);
    lemma_occurs(
        a + "\">\n  <h1>"@ + title@ + "</h1>\n  "@,
        paragraphs@,
        rest_of_page,
    );
    assert(a + "\">\n  <h1>"@ + title@ + "</h1>\n  "@ + paragraphs@ + rest_of_page =~= page@);
    assert(views[i] == link@);
    assert(items[i] == tarpit::link_item(link@));
    lemma_joined_holds(items, "\n"@, i);
    lemma_occurs_within(
        items[i],
        list,
        a + "\">\n  <h1>"@ + title@ + "</h1>\n  "@ + paragraphs@
            + "\n  <h2>Further Reading:</h2>\n  <ul>"@,
        tarpit::page_foot(),
    );
    assert(a + "\">\n  <h1>"@ + title@ + "</h1>\n  "@ + paragraphs@
        + "\n  <h2>Further Reading:</h2>\n  <ul>"@ + list + tarpit::page_foot() =~= page@);
    lemma_page_frame();
    let after_title = title@ + tarpit::page_style() + path@ + "\">\n  <h1>"@ + title@
        + "</h1>\n  "@ + paragraphs@ + rest_of_page;
    lemma_occurs_within("noindex, nofollow"@, tarpit::page_head(), none, after_title);
    assert(none + tarpit::page_head() + after_title =~= page@);
    let style = tarpit::page_style();
    let opening = "<body data-path=\""@;
    let body = opening + path@ + "\">"@;
    let before_body = tarpit::page_head() + title@ + style.take(style.len() - opening.len());
    let after_body = "\n  "@ + heading + "\n  "@ + paragraphs@ + rest_of_page;
    assert(style =~= style.take(style.len() - opening.len()) + opening);
    lemma_occurs(before_body, body, after_body);
    assert(before_body + body + after_body =~= page@);
}

/// The frame of a page asks not to be indexed and ends where the path goes.
proof fn lemma_page_frame()
    ensures
        text::occurs("noindex, nofollow"@, tarpit::page_head()),
        tarpit::page_style().len() >= "<body data-path=\""@.len(),
        tarpit::page_style().skip(
            tarpit::page_style().len() - "<body data-path=\""@.len(),
        ) == "<body data-path=\""@,
{
    reveal_strlit("noindex, nofollow");
    reveal_strlit("<body data-path=\"");
    reveal_strlit(
        "<!DOCTYPE html>\n<html lang=\"en\">\n<head>\n  <meta charset=\"UTF-8\">\n  <meta name=\"robots\" content=\"noindex, nofollow\">\n  <meta name=\"generator\" content=\"AI Scraping Defense Rust Tarpit\">\n  <title>",
    );
    reveal_strlit(
        " - System Documentation</title>\n  <style>\n    body { font-family: ui-monospace, SFMono-Regular, Menlo, monospace; background:#f4f4f1; color:#2f3437; padding:2rem; line-height:1.6; }\n    h1 { border-bottom:1px solid #bbb; padding-bottom:.5rem; }\n    a { color:#255f85; }\n    .footer-link { visibility:hidden; }\n  </style>\n</head>\n<body data-path=\"",
    );
    let head = tarpit::page_head();
    assert(head.subrange(96, 113) =~= "noindex, nofollow"@);
    assert(text::stands_at("noindex, nofollow"@, head, 96));
    let style = tarpit::page_style();
    assert(style.skip(style.len() - "<body data-path=\""@.len()) =~= "<body data-path=\""@);
}

/// Text becomes no markup: ampersands and angle brackets are written by name, one
/// after the other, and every other character as it is.
pub proof fn law_text_is_escaped(
    value: String,
    more: String,
    c: char,
    escaped: String,
    more_escaped: String,
)
    requires
        more@ == value@.push(c),
        call_ensures(tarpit::html_escape, (value,), escaped),
        call_ensures(tarpit::html_escape, (more,), more_escaped),
    ensures
        c == '&' ==> more_escaped@ == escaped@ + "&amp;"@,
        c == '<' ==> more_escaped@ == escaped@ + "&lt;"@,
        c == '>' ==> more_escaped@ == escaped@ + "&gt;"@,
        c != '&' && c != '<' && c != '>' ==> more_escaped@ == escaped@.push(c),
        value@.len() == 0 ==> escaped@.len() == 0,
{
    assert(more@.drop_last() =~= value@);
    assert(more@.last() == c);
    assert(escaped@ + seq![c] =~= escaped@.push(c));
}

/// A few words make one paragraph, escaped and with a full stop.
pub proof fn law_words_make_a_paragraph(
    words: Vec<String>,
    said: String,
    escaped: String,
    content: Option<String>,
)
    requires
        0 < words@.len() <= 45,
        said@ == text::joined(text::views(words@), " "@),
        call_ensures(tarpit::html_escape, (said,), escaped),
        call_ensures(tarpit::markov_content, (&words,), content),
    ensures
        content matches Some(paragraphs) && paragraphs@ == "<p>"@ + escaped@ + ".</p>"@,
{
    let views = text::views(words@);
    assert(views.len() == words@.len());
    let n = views.len() as int;
    assert(views.take(n) =~= views);
    assert(views.skip(n) =~= Seq::<Seq<char>>::empty());
    let one = tarpit::marked(tarpit::escaped(said@) + "."@);
    assert(tarpit::corpus_paragraphs(views.skip(n)) =~= Seq::<Seq<char>>::empty());
    assert(tarpit::corpus_paragraphs(views) =~= seq![one]);
    reveal_strlit("<p>");
    reveal_strlit("</p>");
    reveal_strlit(".");
    reveal_strlit(".</p>");
    assert("."@ + "</p>"@ =~= ".</p>"@);
    assert(one =~= "<p>"@ + escaped@ + ".</p>"@);
}

/// More words make a paragraph of the first 45, and then those of the rest; no
/// words make none.
pub proof fn law_words_make_paragraphs(
    first: Vec<String>,
    rest: Vec<String>,
    all: Vec<String>,
    first_content: Option<String>,
    rest_content: Option<String>,
    content: Option<String>,
)
    requires
        first@.len() == 45,
        all@ == first@ + rest@,
        call_ensures(tarpit::markov_content, (&first,), first_content),
        call_ensures(tarpit::markov_content, (&rest,), rest_content),
        call_ensures(tarpit::markov_content, (&all,), content),
    ensures
        rest@.len() == 0 ==> rest_content is None,
        rest@.len() > 0 ==> (content matches Some(paragraphs) && paragraphs@ == first_content->0@
            + "\n"@ + rest_content->0@),
{
    let a = text::views(first@);
    let b = text::views(rest@);
    let c = text::views(all@);
    assert(c =~= a + b);
    assert(a.len() == 45 && b.len() == rest@.len());
    assert(c.take(45) =~= a);
    assert(c.skip(45) =~= b);
    assert(a.take(45) =~= a);
    assert(a.skip(45) =~= Seq::<Seq<char>>::empty());
    assert(tarpit::corpus_paragraphs(a.skip(45)) =~= Seq::<Seq<char>>::empty());
    let head = tarpit::corpus_paragraphs(a);
    let tail = tarpit::corpus_paragraphs(b);
    assert(head.len() == 1);
    assert(tarpit::corpus_paragraphs(c) =~= head + tail);
    if b.len() > 0 {
        assert(tail.len() >= 1);
        lemma_joined_head(head[0], tail, "\n"@);
        assert(head + tail =~= seq![head[0]] + tail);
    }
}

/// A joined text begins with its first part.
proof fn lemma_joined_head(first: Seq<char>, rest: Seq<Seq<char>>, separator: Seq<char>)
    requires
        rest.len() > 0,
    ensures
        text::joined(seq![first] + rest, separator) == first + separator + text::joined(
            rest,
            separator,
        ),
    decreases rest.len(),
{
    let all = seq![first] + rest;
    assert(all.last() == rest.last());
    if rest.len() == 1 {
        assert(all.drop_last() =~= seq![first]);
        assert(text::joined(seq![first], separator) == first);
    } else {
        assert(all.drop_last() =~= seq![first] + rest.drop_last());
        lemma_joined_head(first, rest.drop_last(), separator);
        assert(text::joined(all, separator) =~= first + separator + text::joined(
            rest.drop_last(),
            separator,
        ) + separator + rest.last());
        assert(text::joined(all, separator) =~= first + separator + (text::joined(
            rest.drop_last(),
            separator,
        ) + separator + rest.last()));
    }
}

/// As many links are made up as asked for, each leading back into the tarpit
/// through at most as many directories as allowed.
pub proof fn law_made_links_lead_back(count: usize, depth: usize, links: Vec<String>, i: int)
    requires
        call_ensures(tarpit::generate_fake_links, (count, depth), links),
        0 <= i < count,
    ensures
        links@.len() == count,
        tarpit::is_fake_link(links@[i]@, depth as int),
        "/tarpit/"@.is_prefix_of(links@[i]@),
{
    let views = text::views(links@);
    assert(views.len() == links@.len());
    assert(views[i] == links@[i]@);
    let seed = tarpit::branch_of(tarpit::seed_of("links"@), i as nat);
    tarpit::law_links_are_well_formed(seed, depth as int);
    tarpit::law_links_lead_back(links@[i]@, depth as int);
}

/// A page that is made up for its path holds nine links, each through at most
/// three directories.
pub proof fn law_made_pages_have_nine_links(path: Option<&str>, shown: Seq<char>, page: String)
    requires
        path matches Some(hint) ==> shown == hint@,
        path is None ==> shown == "/"@,
        call_ensures(tarpit::generate_page, (path,), page),
    ensures
        exists|title: Seq<char>, said: Seq<char>, links: Seq<Seq<char>>|
            page@ == #[trigger] tarpit::page_of(title, shown, said, links) && title.len() == 10 && links.len() == 9 && forall|i: int|
                0 <= i < 9 ==> tarpit::is_fake_link(#[trigger] links[i], 3),
{
    tarpit::law_pages_are_well_formed(text::opt_str_view(path), None);
}

/// A page is made up for its path, and says the content that it is given.
pub proof fn law_made_pages_say_their_content(
    path: Option<&str>,
    content: String,
    page: String,
    plain: String,
    unsaid: String,
)
    requires
        call_ensures(tarpit::generate_page_with_content, (path, Some(content)), page),
        call_ensures(tarpit::generate_page_with_content, (path, None), unsaid),
        call_ensures(tarpit::generate_page, (path,), plain),
    ensures
        text::occurs(content@, page@),
        plain@ == unsaid@,
{
    let hint = text::opt_str_view(path);
    tarpit::law_pages_are_well_formed(hint, Some(content@));
    let (title, said, links) = choose|title: Seq<char>, said: Seq<char>, links: Seq<Seq<char>>|
        {
            &&& tarpit::is_name(title) && title.len() == 10
            &&& said == content@
            &&& links.len() == tarpit::PAGE_LINKS
            &&& forall|i: int|
                0 <= i < links.len() ==> tarpit::is_fake_link(
                    #[trigger] links[i],
                    tarpit::LINK_DEPTH as int,
                )
            &&& page@ == #[trigger] tarpit::page_of(
                title,
                crate::settings::string_setting(hint, "/"@),
                said,
                links,
            )
        };
    let path_shown = crate::settings::string_setting(hint, "/"@);
    let front = tarpit::page_head() + title + tarpit::page_style() + path_shown
        + "\">\n  <h1>"@ + title + "</h1>\n  "@;
    let back = "\n  <h2>Further Reading:</h2>\n  <ul>"@ + tarpit::link_items(links)
        + tarpit::page_foot();
    lemma_occurs(front, said, back);
    assert(front + said + back =~= page@);
}

/// A made-up script is as large as asked for, and says what it is and when it was
/// made.
pub proof fn law_made_scripts_say_what_they_are(size: usize, moment: &str, script: String)
    requires
        call_ensures(tarpit::fake_js_module_at, (size, moment), script),
    ensures
        text::byte_len(script@) >= size,
        "// Fake module: "@.is_prefix_of(script@),
        text::occurs("\n// Generated: "@ + moment@ + "\n"@, script@),
{
    let seed = tarpit::seed_of(text::decimal(size as nat));
    let name = tarpit::made_script_name(tarpit::branch_of(seed, 0));
    let variables = tarpit::made_variables(tarpit::branch_of(seed, 1));
    let body = tarpit::script_body(name, moment@, variables);
    let filling = tarpit::branch_of(seed, 2);
    tarpit::law_scripts_reach_their_size(body, filling, 0, size as int);
    let none = Seq::<char>::empty();
    reveal_strlit("\n(function() {\n");
    reveal_strlit("\n");
    reveal_strlit("(function() {\n");
    assert("\n"@ + "(function() {\n"@ =~= "\n(function() {\n"@);
    let lines = tarpit::variable_lines(variables, variables.len()) + "})();\n"@;
    let stamp = "\n// Generated: "@ + moment@ + "\n"@;
    lemma_occurs("// Fake module: "@ + name, stamp, "(function() {\n"@ + lines);
    assert("// Fake module: "@ + name + stamp + ("(function() {\n"@ + lines) =~= body);
    assert(script@ =~= none + body + script@.skip(body.len() as int)) by {
        assert(script@.take(body.len() as int) =~= body);
    }
    lemma_occurs_within(stamp, body, none, script@.skip(body.len() as int));
    let first = "// Fake module: "@;
    assert(body.take(first.len() as int) =~= first);
    assert(script@.take(first.len() as int) =~= first) by {
        assert(script@.take(body.len() as int) =~= body);
    }
}

/// A made-up script declares its variables one to a line.
pub proof fn law_scripts_declare_variables(
    variables: Seq<(Seq<char>, int)>,
    name: Seq<char>,
    value: nat,
)
    ensures
        ({
            let more = variables.push((name, value as int));
            tarpit::variable_lines(more, more.len()) == tarpit::variable_lines(
                variables,
                variables.len(),
            ) + "  var "@ + name + " = "@ + text::decimal(value) + ";\n"@
        }),
{
    let more = variables.push((name, value as int));
    lemma_variable_prefix(variables, more, variables.len());
    let before = tarpit::variable_lines(variables, variables.len());
    assert(tarpit::variable_lines(more, more.len()) =~= before + "  var "@ + name + " = "@
        + text::decimal(value) + ";\n"@);
}

/// The first lines of a longer list are those of the shorter one.
proof fn lemma_variable_prefix(
    variables: Seq<(Seq<char>, int)>,
    more: Seq<(Seq<char>, int)>,
    n: nat,
)
    requires
        n <= variables.len() <= more.len(),
        forall|i: int| 0 <= i < variables.len() ==> variables[i] == #[trigger] more[i],
    ensures
        tarpit::variable_lines(variables, n) == tarpit::variable_lines(more, n),
    decreases n,
{
    if n > 0 {
        lemma_variable_prefix(variables, more, (n - 1) as nat);
        assert(variables[n - 1] == more[n - 1]);
    }
}

} // verus!
