use custom_rss::date::{DateField, DateParseError, Dialect};
use custom_rss::dom::{byte_length, text_fits, MAX_TEXT_BYTES};
use custom_rss::extract::{
    capture_from, extract_each, extract_entries, extract_entry, extract_field, follow, pick,
    resolve_link, ExtractionError, RawEntry,
};
use custom_rss::feed::{synthesize, Entry, Envelope, FeedItem};
use custom_rss::isabel;
use custom_rss::pipeline::{
    attempt, build_feed, conclude, normalize_entries, normalize_entry, run, Outcome,
    PipelineError, Source, Stage,
};
use custom_rss::rss_utils::{make_no_content, make_rss, Response, STATUS_NO_CONTENT, STATUS_OK, XML_TYPE};
use custom_rss::rules::{
    compile_rule, made_step, Capture, Field, FieldRule, RuleError, RuleSet, Step,
};
use custom_rss::verde;
use scraper::{ElementRef, Html, Selector};

const ISABEL_PAGE: &str = r#"<!DOCTYPE html>
<html><head><title>Archivo</title></head><body>
<div class="blogsection">
  <h3 class="blogtitle"><a href="entrada-uno.html"> Primera <b>entrada</b> </a></h3>
  <div class="blogdate"> jueves, 3 de enero de 2024 </div>
  <div class="blogcontent"> <p>Hola</p> mundo </div>
</div>
<div class="blogsection">
  <h3 class="blogtitle"><a href="entrada-dos.html">Segunda</a></h3>
  <div class="blogdate">martes, 15 de agosto de 2023</div>
  <div class="blogcontent">Texto &amp; más</div>
</div>
</body></html>"#;

const VERDE_BLOG_PAGE: &str = r#"<html><body>
<div class="views-row">
  <div class="group-header"><div class="field__item even"><h2><a href="/blog/uno"> Uno </a></h2></div></div>
  <div class="group-right"><p>Texto uno</p><p class="rteright"><span> 2023-08-15 </span></p></div>
</div>
<div class="views-row">
  <div class="group-header"><div class="field__item even"><h2><a href="/blog/dos">Dos</a></h2></div></div>
  <div class="group-right"><p class="rteright"><span>2024-01-03</span></p><p>Texto dos</p><p>y tres</p></div>
</div>
</body></html>"#;

const REPORTAJES_PAGE: &str = r#"<html><body>
<div class="views-row">
  <div class="field__item even" property="dc:title"><h2><a href="/reportajes/r1">Reportaje 1</a></h2></div>
  <div class="field__item even" property="content:encoded"><p>Pie de foto</p><p> La descripción </p><p>Más</p></div>
  <div class="field field--name-post-date"><div class="field__item even">15 Ago. 2023</div></div>
</div>
</body></html>"#;

fn item_fields(item: &FeedItem) -> (String, String, String, String, bool, String) {
    (
        item.title().clone(),
        item.link().clone(),
        item.description().clone(),
        item.guid().clone(),
        item.is_permalink(),
        item.pub_date().clone(),
    )
}

fn owned(values: (&str, &str, &str, &str, bool, &str)) -> (String, String, String, String, bool, String) {
    (
        values.0.to_string(),
        values.1.to_string(),
        values.2.to_string(),
        values.3.to_string(),
        values.4,
        values.5.to_string(),
    )
}

#[test]
fn isabel_test_lazy_lock_no_panic() {
    let dull_document = Html::new_document();
    let source = isabel::source().unwrap();
    assert_eq!(extract_entries(&dull_document, &source.rules), Ok(Vec::new()));
    let feed = build_feed(&source, &dull_document).unwrap();
    assert_eq!(feed.items().len(), 0);
}

#[test]
fn verde_test_lazy_lock_no_panic() {
    let dull_document = Html::new_document();

    // Blog
    let blog = verde::blog_source().unwrap();
    assert_eq!(extract_entries(&dull_document, &blog.rules), Ok(Vec::new()));
    assert_eq!(build_feed(&blog, &dull_document).unwrap().items().len(), 0);

    // Reportajes
    let reportajes = verde::reportajes_source().unwrap();
    assert_eq!(extract_entries(&dull_document, &reportajes.rules), Ok(Vec::new()));
    assert_eq!(build_feed(&reportajes, &dull_document).unwrap().items().len(), 0);
}

#[test]
fn sources_compile_whatever_the_page() {
    for _ in 0..3 {
        assert!(isabel::source().is_ok());
        assert!(verde::blog_source().is_ok());
        assert!(verde::reportajes_source().is_ok());
    }
    let unrelated = Html::parse_document("<table><tr><td>nada</td></tr></table>");
    let source = isabel::source().unwrap();
    assert_eq!(extract_entries(&unrelated, &source.rules), Ok(Vec::new()));
    let source = verde::blog_source().unwrap();
    assert_eq!(extract_entries(&unrelated, &source.rules), Ok(Vec::new()));
    let source = verde::reportajes_source().unwrap();
    assert_eq!(extract_entries(&unrelated, &source.rules), Ok(Vec::new()));
}

#[test]
fn isabel_source_is_the_declared_one() {
    let source = isabel::source().unwrap();
    assert_eq!(source.dialect, Dialect::Worded);
    assert_eq!(source.envelope.title, "El blog de Isabel");
    assert_eq!(source.envelope.link, "https://marmenormarmayor.es/El-blog-de-Isabel/");
    assert_eq!(source.envelope.description, "Últimas entradas del blog de Isabel");
    assert_eq!(source.rules.link_base, "https://marmenormarmayor.es/El-blog-de-Isabel/");
    assert_eq!(source.rules.entry, Selector::parse(".blogsection").unwrap());
    assert_eq!(source.rules.title.steps.len(), 1);
    assert_eq!(source.rules.title.steps[0].selector, Selector::parse("h3.blogtitle a").unwrap());
    assert_eq!(source.rules.title.steps[0].ordinal, 0);
    assert_eq!(source.rules.title.capture, Capture::Text);
    assert_eq!(source.rules.link.steps[0].selector, Selector::parse("h3.blogtitle a").unwrap());
    assert_eq!(source.rules.link.capture, Capture::Attribute { name: "href".to_string() });
    assert_eq!(source.rules.description.steps[0].selector, Selector::parse(".blogcontent").unwrap());
    assert_eq!(source.rules.date.steps[0].selector, Selector::parse(".blogdate").unwrap());
}

#[test]
fn isabel_rules_are_the_declared_ones() {
    let rules = isabel::rules();
    assert_eq!(rules.entry, ".blogsection");
    assert_eq!(
        rules.title,
        FieldRule { steps: vec![Step { selector: "h3.blogtitle a".to_string(), ordinal: 0 }], capture: Capture::Text }
    );
    assert_eq!(
        rules.link,
        FieldRule {
            steps: vec![Step { selector: "h3.blogtitle a".to_string(), ordinal: 0 }],
            capture: Capture::Attribute { name: "href".to_string() }
        }
    );
    assert_eq!(rules.description, FieldRule::text(vec![Step::first(".blogcontent")]));
    assert_eq!(rules.date, FieldRule::text(vec![Step::first(".blogdate")]));
    assert_eq!(rules.link_base, "https://marmenormarmayor.es/El-blog-de-Isabel/");
}

#[test]
fn verde_rules_are_the_declared_ones() {
    let blog = verde::blog_rules();
    assert_eq!(blog.entry, ".views-row");
    assert_eq!(
        blog.title,
        FieldRule::text(vec![Step::first(".group-header"), Step::first(".field__item.even h2 a")])
    );
    assert_eq!(
        blog.link,
        FieldRule::attribute(
            vec![Step::first(".group-header"), Step::first(".field__item.even h2 a")],
            "href"
        )
    );
    assert_eq!(
        blog.description,
        FieldRule::text(vec![Step::first(".group-right"), Step::first("p:not(.rteright)")])
    );
    assert_eq!(
        blog.date,
        FieldRule::text(vec![Step::first(".group-right"), Step::first("p.rteright span")])
    );
    assert_eq!(blog.link_base, "https://elclickverde.com");

    let reportajes = verde::reportajes_rules();
    assert_eq!(reportajes.entry, ".views-row");
    assert_eq!(
        reportajes.title,
        FieldRule::text(vec![Step::first(r#"div.field__item.even[property="dc:title"] h2 a"#)])
    );
    assert_eq!(
        reportajes.link,
        FieldRule::attribute(
            vec![Step::first(r#"div.field__item.even[property="dc:title"] h2 a"#)],
            "href"
        )
    );
    assert_eq!(
        reportajes.description,
        FieldRule::text(vec![
            Step::first(r#"div.field__item.even[property="content:encoded"]"#),
            Step::nth("p", 1)
        ])
    );
    assert_eq!(
        reportajes.date,
        FieldRule::text(vec![
            Step::first("div.field.field--name-post-date"),
            Step::first("div.field__item.even")
        ])
    );
    assert_eq!(reportajes.link_base, "https://elclickverde.com");
}

#[test]
fn verde_sources_are_the_declared_ones() {
    let blog = verde::blog_source().unwrap();
    assert_eq!(blog.dialect, Dialect::Iso);
    assert_eq!(blog.envelope.title, "Blog | elclickverde");
    assert_eq!(blog.envelope.link, "https://elclickverde.com/blog");
    assert_eq!(blog.envelope.description, "Últimas entradas del blog de elclickverde");
    assert_eq!(blog.rules.title.steps.len(), 2);
    assert_eq!(blog.rules.description.steps[1].selector, Selector::parse("p:not(.rteright)").unwrap());
    let reportajes = verde::reportajes_source().unwrap();
    assert_eq!(reportajes.dialect, Dialect::Abbreviated);
    assert_eq!(reportajes.envelope.title, "Reportajes | elclickverde");
    assert_eq!(reportajes.envelope.link, "https://elclickverde.com/reportajes");
    assert_eq!(reportajes.envelope.description, "Últimos reportajes de elclickverde");
    assert_eq!(reportajes.rules.description.steps[1].ordinal, 1);
    assert_eq!(reportajes.rules.description.steps[1].selector, Selector::parse("p").unwrap());
}

#[test]
fn isabel_page_gives_its_entries_in_order() {
    let source = isabel::source().unwrap();
    let document = Html::parse_document(ISABEL_PAGE);
    let entries = extract_entries(&document, &source.rules).unwrap();
    assert_eq!(
        entries,
        vec![
            RawEntry {
                title: "Primera entrada".to_string(),
                link: "https://marmenormarmayor.es/El-blog-de-Isabel/entrada-uno.html".to_string(),
                raw_description: "Hola mundo".to_string(),
                raw_date: "jueves, 3 de enero de 2024".to_string(),
            },
            RawEntry {
                title: "Segunda".to_string(),
                link: "https://marmenormarmayor.es/El-blog-de-Isabel/entrada-dos.html".to_string(),
                raw_description: "Texto & más".to_string(),
                raw_date: "martes, 15 de agosto de 2023".to_string(),
            },
        ]
    );
}

#[test]
fn isabel_page_gives_its_feed() {
    let source = isabel::source().unwrap();
    let document = Html::parse_document(ISABEL_PAGE);
    let feed = build_feed(&source, &document).unwrap();
    assert_eq!(feed.title(), "El blog de Isabel");
    assert_eq!(feed.link(), "https://marmenormarmayor.es/El-blog-de-Isabel/");
    assert_eq!(feed.description(), "Últimas entradas del blog de Isabel");
    let items: Vec<_> = feed.items().iter().map(item_fields).collect();
    assert_eq!(
        items,
        vec![
            owned((
                "Primera entrada",
                "https://marmenormarmayor.es/El-blog-de-Isabel/entrada-uno.html",
                "Hola mundo",
                "https://marmenormarmayor.es/El-blog-de-Isabel/entrada-uno.html",
                true,
                "Wed, 3 Jan 2024 12:00:00 +0100",
            )),
            owned((
                "Segunda",
                "https://marmenormarmayor.es/El-blog-de-Isabel/entrada-dos.html",
                "Texto & más",
                "https://marmenormarmayor.es/El-blog-de-Isabel/entrada-dos.html",
                true,
                "Tue, 15 Aug 2023 12:00:00 +0200",
            )),
        ]
    );
}

#[test]
fn verde_blog_page_gives_its_feed() {
    let source = verde::blog_source().unwrap();
    let document = Html::parse_document(VERDE_BLOG_PAGE);
    let feed = build_feed(&source, &document).unwrap();
    let items: Vec<_> = feed.items().iter().map(item_fields).collect();
    assert_eq!(
        items,
        vec![
            owned((
                "Uno",
                "https://elclickverde.com/blog/uno",
                "Texto uno",
                "https://elclickverde.com/blog/uno",
                true,
                "Tue, 15 Aug 2023 12:00:00 +0200",
            )),
            owned((
                "Dos",
                "https://elclickverde.com/blog/dos",
                "Texto dos",
                "https://elclickverde.com/blog/dos",
                true,
                "Wed, 3 Jan 2024 12:00:00 +0100",
            )),
        ]
    );
}

#[test]
fn reportajes_description_is_the_second_paragraph() {
    let source = verde::reportajes_source().unwrap();
    let document = Html::parse_document(REPORTAJES_PAGE);
    let feed = build_feed(&source, &document).unwrap();
    let items: Vec<_> = feed.items().iter().map(item_fields).collect();
    assert_eq!(
        items,
        vec![owned((
            "Reportaje 1",
            "https://elclickverde.com/reportajes/r1",
            "La descripción",
            "https://elclickverde.com/reportajes/r1",
            true,
            "Tue, 15 Aug 2023 12:00:00 +0200",
        ))]
    );
}

#[test]
fn reportaje_with_one_paragraph_lacks_its_description() {
    let source = verde::reportajes_source().unwrap();
    let page = REPORTAJES_PAGE.replace("<p> La descripción </p><p>Más</p>", "");
    let document = Html::parse_document(&page);
    assert_eq!(
        extract_entries(&document, &source.rules),
        Err(ExtractionError { entry: 0, field: Field::Description })
    );
}

#[test]
fn number_of_items_is_number_of_entries() {
    let source = isabel::source().unwrap();
    for count in [0usize, 1, 2, 5, 17] {
        let mut page = String::from("<html><body>");
        for number in 0..count {
            page.push_str(&format!(
                "<div class=\"blogsection\"><h3 class=\"blogtitle\"><a href=\"e{number}.html\">T{number}</a></h3>\
                 <div class=\"blogdate\">lunes, {} de mayo de 2024</div><div class=\"blogcontent\">C{number}</div></div>",
                number + 1
            ));
        }
        page.push_str("</body></html>");
        let document = Html::parse_document(&page);
        let matches = document.select(&source.rules.entry).count();
        assert_eq!(matches, count);
        let feed = build_feed(&source, &document).unwrap();
        assert_eq!(feed.items().len(), count);
        for (number, item) in feed.items().iter().enumerate() {
            assert_eq!(item.title(), &format!("T{number}"));
            assert_eq!(item.description(), &format!("C{number}"));
            assert_eq!(item.guid(), item.link());
            assert!(item.is_permalink());
        }
    }
}

#[test]
fn page_without_entries_gives_an_empty_feed_and_success() {
    let source = isabel::source().unwrap();
    let outcome = isabel::rss(&source, Ok("<html><body><p>nada</p></body></html>".to_string()));
    assert_eq!(outcome.cause, None);
    assert_eq!(outcome.response.status, 200);
    assert_eq!(outcome.response.content_type, Some("application/xml".to_string()));
    let channel = rss::ChannelBuilder::default()
        .title("El blog de Isabel")
        .link("https://marmenormarmayor.es/El-blog-de-Isabel/")
        .description("Últimas entradas del blog de Isabel")
        .build();
    assert_eq!(outcome.response.body, channel.to_string());
    assert!(!outcome.response.body.contains("<item>"));

    let outcome = isabel::rss(&source, Ok(String::new()));
    assert_eq!(outcome.cause, None);
    assert_eq!(outcome.response.status, 200);
}

#[test]
fn one_entry_without_date_fails_the_whole_page() {
    let source = isabel::source().unwrap();
    let page = ISABEL_PAGE.replace("<div class=\"blogdate\">martes, 15 de agosto de 2023</div>", "");
    let document = Html::parse_document(&page);
    assert_eq!(document.select(&source.rules.entry).count(), 2);
    assert_eq!(
        extract_entries(&document, &source.rules),
        Err(ExtractionError { entry: 1, field: Field::Date })
    );
    assert_eq!(
        build_feed(&source, &document),
        Err(PipelineError::Extraction { entry: 1, field: Field::Date })
    );
    let outcome = isabel::rss(&source, Ok(page));
    assert_eq!(outcome.response, Response { status: 204, content_type: None, body: String::new() });
    assert_eq!(outcome.cause, Some(PipelineError::Extraction { entry: 1, field: Field::Date }));
}

#[test]
fn each_missing_field_is_named() {
    let source = isabel::source().unwrap();
    let cases = [
        ("<h3 class=\"blogtitle\"><a href=\"entrada-uno.html\"> Primera <b>entrada</b> </a></h3>", "", Field::Title),
        (" href=\"entrada-uno.html\"", "", Field::Link),
        ("<div class=\"blogcontent\"> <p>Hola</p> mundo </div>", "", Field::Description),
        ("<div class=\"blogdate\"> jueves, 3 de enero de 2024 </div>", "", Field::Date),
    ];
    for (from, to, field) in cases {
        let page = ISABEL_PAGE.replace(from, to);
        assert_ne!(page, ISABEL_PAGE);
        let document = Html::parse_document(&page);
        assert_eq!(
            extract_entries(&document, &source.rules),
            Err(ExtractionError { entry: 0, field })
        );
    }
}

#[test]
fn fields_are_read_in_the_order_title_link_description_date() {
    let source = isabel::source().unwrap();
    let document = Html::parse_document("<div class=\"blogsection\"></div>");
    assert_eq!(
        extract_entries(&document, &source.rules),
        Err(ExtractionError { entry: 0, field: Field::Title })
    );
    let document = Html::parse_document(
        "<div class=\"blogsection\"><h3 class=\"blogtitle\"><a>sin enlace</a></h3></div>",
    );
    assert_eq!(
        extract_entries(&document, &source.rules),
        Err(ExtractionError { entry: 0, field: Field::Link })
    );
    let document = Html::parse_document(
        "<div class=\"blogsection\"><h3 class=\"blogtitle\"><a href=\"x\">t</a></h3></div>",
    );
    assert_eq!(
        extract_entries(&document, &source.rules),
        Err(ExtractionError { entry: 0, field: Field::Description })
    );
}

#[test]
fn a_missing_field_comes_before_any_bad_date() {
    let source = isabel::source().unwrap();
    let page = ISABEL_PAGE
        .replace("jueves, 3 de enero de 2024", "jueves, 3 de brumario de 2024")
        .replace("<div class=\"blogcontent\">Texto &amp; más</div>", "");
    let outcome = isabel::rss(&source, Ok(page));
    assert_eq!(outcome.response.status, 204);
    assert_eq!(
        outcome.cause,
        Some(PipelineError::Extraction { entry: 1, field: Field::Description })
    );
}

#[test]
fn one_bad_date_fails_the_whole_page() {
    let source = isabel::source().unwrap();
    let page = ISABEL_PAGE.replace("martes, 15 de agosto de 2023", "martes, 15 de Xyz. de 2023");
    let outcome = isabel::rss(&source, Ok(page.clone()));
    assert_eq!(outcome.response, Response { status: 204, content_type: None, body: String::new() });
    assert_eq!(
        outcome.cause,
        Some(PipelineError::Date {
            entry: 1,
            error: DateParseError::UnknownMonth { token: "Xyz.".to_string() }
        })
    );
    assert_eq!(
        isabel::parse_content(&source, Ok(page)),
        Err(PipelineError::Date {
            entry: 1,
            error: DateParseError::UnknownMonth { token: "Xyz.".to_string() }
        })
    );
}

#[test]
fn the_first_bad_date_is_the_cause() {
    let source = verde::blog_source().unwrap();
    let page = VERDE_BLOG_PAGE.replace("2023-08-15", "ayer").replace("2024-01-03", "2024-13-03");
    assert_eq!(
        verde::parse_blog(&source, Ok(page)),
        Err(PipelineError::Date { entry: 0, error: DateParseError::Malformed })
    );
}

#[test]
fn a_page_that_was_not_fetched_fails_the_request() {
    let source = verde::reportajes_source().unwrap();
    let outcome = verde::reportajes_rss(&source, Err("connection refused".to_string()));
    assert_eq!(outcome.response, Response { status: 204, content_type: None, body: String::new() });
    assert_eq!(outcome.cause, Some(PipelineError::Fetch { reason: "connection refused".to_string() }));
    assert_eq!(
        verde::parse_reportajes(&source, Err("timeout".to_string())),
        Err(PipelineError::Fetch { reason: "timeout".to_string() })
    );
    assert_eq!(
        attempt(&source, Err("timeout".to_string())),
        Err(PipelineError::Fetch { reason: "timeout".to_string() })
    );
}

#[test]
fn every_failure_gives_the_same_answer() {
    let causes = [
        PipelineError::Fetch { reason: "x".to_string() },
        PipelineError::Parse { bytes: 1 << 30 },
        PipelineError::Extraction { entry: 3, field: Field::Link },
        PipelineError::Date { entry: 0, error: DateParseError::MissingToken { field: DateField::Day } },
        PipelineError::Render,
    ];
    for cause in causes {
        let outcome = conclude(Err(cause));
        assert_eq!(outcome.response, make_no_content());
        assert_eq!(outcome.response.status, STATUS_NO_CONTENT);
        assert_eq!(outcome.response.content_type, None);
        assert_eq!(outcome.response.body, "");
        assert!(outcome.cause.is_some());
    }
}

#[test]
fn conclude_keeps_an_answer_that_was_made() {
    let response = Response { status: 200, content_type: Some("application/xml".to_string()), body: "<rss/>".to_string() };
    let outcome = conclude(Ok(Response { status: 200, content_type: Some("application/xml".to_string()), body: "<rss/>".to_string() }));
    assert_eq!(outcome, Outcome { response, cause: None });
}

#[test]
fn failures_name_their_stage() {
    assert_eq!(PipelineError::Fetch { reason: String::new() }.stage(), Stage::Fetching);
    assert_eq!(PipelineError::Parse { bytes: 0 }.stage(), Stage::Parsing);
    assert_eq!(PipelineError::Extraction { entry: 0, field: Field::Title }.stage(), Stage::Extracting);
    assert_eq!(
        PipelineError::Date { entry: 0, error: DateParseError::Malformed }.stage(),
        Stage::Normalizing
    );
    assert_eq!(PipelineError::Render.stage(), Stage::Rendering);
}

#[test]
fn verde_answers_hold_the_feed_as_xml() {
    let source = verde::blog_source().unwrap();
    let outcome = verde::blog_rss(&source, Ok(VERDE_BLOG_PAGE.to_string()));
    assert_eq!(outcome.cause, None);
    assert_eq!(outcome.response.status, STATUS_OK);
    assert_eq!(outcome.response.content_type, Some(XML_TYPE.to_string()));
    let item = |title: &str, link: &str, description: &str, date: &str| {
        rss::ItemBuilder::default()
            .title(title.to_string())
            .link(link.to_string())
            .description(description.to_string())
            .guid(Some(rss::Guid { value: link.to_string(), permalink: true }))
            .pub_date(date.to_string())
            .build()
    };
    let mut channel = rss::ChannelBuilder::default()
        .title("Blog | elclickverde")
        .link("https://elclickverde.com/blog")
        .description("Últimas entradas del blog de elclickverde")
        .build();
    channel.items.push(item("Uno", "https://elclickverde.com/blog/uno", "Texto uno", "Tue, 15 Aug 2023 12:00:00 +0200"));
    channel.items.push(item("Dos", "https://elclickverde.com/blog/dos", "Texto dos", "Wed, 3 Jan 2024 12:00:00 +0100"));
    assert_eq!(outcome.response.body, channel.to_string());
    assert_eq!(
        run(&source, VERDE_BLOG_PAGE).unwrap().body,
        conclude(attempt(&source, Ok(VERDE_BLOG_PAGE.to_string()))).response.body
    );
}

#[test]
fn make_rss_writes_the_channel() {
    let envelope = Envelope {
        title: "T".to_string(),
        link: "https://example.org/".to_string(),
        description: "D <&>".to_string(),
    };
    let entries = vec![Entry {
        title: "uno".to_string(),
        link: "https://example.org/1".to_string(),
        description: "primero".to_string(),
        pub_date: "Wed, 3 Jan 2024 12:00:00 +0100".to_string(),
    }];
    let response = make_rss(&synthesize(&envelope, &entries));
    assert_eq!(response.status, 200);
    assert_eq!(response.content_type, Some("application/xml".to_string()));
    assert_eq!(
        response.body,
        "<?xml version=\"1.0\" encoding=\"utf-8\"?><rss version=\"2.0\"><channel><title>T</title>\
         <link>https://example.org/</link><description>D &lt;&amp;&gt;</description>\
         <item><title>uno</title><link>https://example.org/1</link>\
         <description><![CDATA[primero]]></description>\
         <guid>https://example.org/1</guid>\
         <pubDate>Wed, 3 Jan 2024 12:00:00 +0100</pubDate></item></channel></rss>"
    );
}

#[test]
fn synthesize_keeps_order_and_duplicates() {
    let envelope = Envelope { title: "T".to_string(), link: "L".to_string(), description: "D".to_string() };
    let entry = |n: &str| Entry {
        title: n.to_string(),
        link: format!("l{n}"),
        description: format!("d{n}"),
        pub_date: format!("p{n}"),
    };
    let entries = vec![entry("b"), entry("a"), entry("b"), entry("c"), entry("a")];
    let feed = synthesize(&envelope, &entries);
    assert_eq!(feed.title(), "T");
    assert_eq!(feed.link(), "L");
    assert_eq!(feed.description(), "D");
    let titles: Vec<&str> = feed.items().iter().map(|item| item.title().as_str()).collect();
    assert_eq!(titles, vec!["b", "a", "b", "c", "a"]);
    for (item, entry) in feed.items().iter().zip(entries.iter()) {
        assert_eq!(item_fields(item), owned((&entry.title, &entry.link, &entry.description, &entry.link, true, &entry.pub_date)));
    }
    assert_eq!(synthesize(&envelope, &Vec::new()).items().len(), 0);
}

#[test]
fn feed_item_is_identified_by_its_link() {
    let item = FeedItem::new(&Entry {
        title: "t".to_string(),
        link: "https://example.org/x".to_string(),
        description: "d".to_string(),
        pub_date: "p".to_string(),
    });
    assert_eq!(item.guid(), "https://example.org/x");
    assert_eq!(item.guid(), item.link());
    assert!(item.is_permalink());
    assert_eq!(item.title(), "t");
    assert_eq!(item.description(), "d");
    assert_eq!(item.pub_date(), "p");
}

#[test]
fn normalize_entries_stops_at_the_first_bad_date() {
    let raw = |date: &str| RawEntry {
        title: "t".to_string(),
        link: "l".to_string(),
        raw_description: "d".to_string(),
        raw_date: date.to_string(),
    };
    assert_eq!(
        normalize_entry(&raw("15 Ago. 2023"), Dialect::Abbreviated),
        Ok(Entry {
            title: "t".to_string(),
            link: "l".to_string(),
            description: "d".to_string(),
            pub_date: "Tue, 15 Aug 2023 12:00:00 +0200".to_string()
        })
    );
    assert_eq!(
        normalize_entry(&raw("15 Ago."), Dialect::Abbreviated),
        Err(DateParseError::MissingToken { field: DateField::Year })
    );
    let all = vec![raw("15 Ago. 2023"), raw("32 Ago. 2023"), raw("x"), raw("1 Ene. 2024")];
    assert_eq!(
        normalize_entries(&all, Dialect::Abbreviated),
        Err(PipelineError::Date {
            entry: 1,
            error: DateParseError::ImpossibleDate { year: 2023, month: 8, day: 32 }
        })
    );
    let good = vec![raw("15 Ago. 2023"), raw("1 Ene. 2024")];
    let dates: Vec<String> = normalize_entries(&good, Dialect::Abbreviated)
        .unwrap()
        .into_iter()
        .map(|entry| entry.pub_date)
        .collect();
    assert_eq!(dates, vec!["Tue, 15 Aug 2023 12:00:00 +0200", "Mon, 1 Jan 2024 12:00:00 +0100"]);
    assert_eq!(normalize_entries(&Vec::new(), Dialect::Iso), Ok(Vec::new()));
}

#[test]
fn pick_takes_the_match_at_the_ordinal() {
    let document = Html::parse_document("<p>a</p><p>b</p><p>c</p>");
    let selector = Selector::parse("p").unwrap();
    let found: Vec<ElementRef> = document.select(&selector).collect();
    assert_eq!(found.len(), 3);
    assert_eq!(pick(&found, 0), Some(found[0]));
    assert_eq!(pick(&found, 1), Some(found[1]));
    assert_eq!(pick(&found, 2), Some(found[2]));
    assert_eq!(pick(&found, 3), None);
    assert_eq!(pick(&Vec::new(), 0), None);
}

#[test]
fn follow_goes_layer_by_layer() {
    let document = Html::parse_document(
        "<div id=\"a\"><span>uno</span><section><span>dos</span><span>tres</span></section></div>\
         <div id=\"b\"><span>cuatro</span></div>",
    );
    let root = document.root_element();
    let chain = |steps: Vec<Step>| compile_rule(Field::Title, FieldRule::text(steps)).unwrap();
    let text = |steps: Vec<Step>| follow(root, &chain(steps).steps).map(|e| e.text().collect::<String>());
    assert_eq!(text(vec![Step::first("span")]), Some("uno".to_string()));
    assert_eq!(text(vec![Step::nth("span", 2)]), Some("tres".to_string()));
    assert_eq!(text(vec![Step::nth("span", 3)]), Some("cuatro".to_string()));
    assert_eq!(text(vec![Step::nth("span", 4)]), None);
    assert_eq!(text(vec![Step::first("section"), Step::first("span")]), Some("dos".to_string()));
    assert_eq!(text(vec![Step::first("section"), Step::nth("span", 1)]), Some("tres".to_string()));
    assert_eq!(text(vec![Step::first("section"), Step::nth("span", 2)]), None);
    assert_eq!(text(vec![Step::nth("div", 1), Step::first("span")]), Some("cuatro".to_string()));
    assert_eq!(text(vec![Step::first("div"), Step::first("section"), Step::nth("span", 1)]), Some("tres".to_string()));
    assert_eq!(text(vec![Step::nth("div", 1), Step::first("section"), Step::first("span")]), None);
    assert_eq!(follow(root, &Vec::new()), Some(root));
}

#[test]
fn the_first_layer_decides_even_where_a_later_match_would_do() {
    let document = Html::parse_document(
        "<div class=\"o\"><i>sin</i></div><div class=\"o\"><b>con</b></div>",
    );
    let rule = compile_rule(Field::Title, FieldRule::text(vec![Step::first(".o"), Step::first("b")])).unwrap();
    assert_eq!(extract_field(document.root_element(), &rule), None);
    let rule = compile_rule(Field::Title, FieldRule::text(vec![Step::nth(".o", 1), Step::first("b")])).unwrap();
    assert_eq!(extract_field(document.root_element(), &rule), Some("con".to_string()));
}

#[test]
fn capture_takes_trimmed_text_or_an_attribute_as_it_stands() {
    let document = Html::parse_document("<a href=\" /x y \" title=\"\"> hola <b> mundo</b>\n</a>");
    let anchor = document.select(&Selector::parse("a").unwrap()).next().unwrap();
    assert_eq!(capture_from(anchor, &Capture::Text), Some("hola  mundo".to_string()));
    assert_eq!(
        capture_from(anchor, &Capture::Attribute { name: "href".to_string() }),
        Some(" /x y ".to_string())
    );
    assert_eq!(capture_from(anchor, &Capture::Attribute { name: "title".to_string() }), Some(String::new()));
    assert_eq!(capture_from(anchor, &Capture::Attribute { name: "rel".to_string() }), None);
}

#[test]
fn links_are_put_behind_the_base() {
    assert_eq!(resolve_link("https://elclickverde.com", "/blog/uno"), "https://elclickverde.com/blog/uno");
    assert_eq!(resolve_link("", "x"), "x");
    assert_eq!(resolve_link("x", ""), "x");
}

#[test]
fn extract_entry_and_each_agree_with_the_page() {
    let source = verde::blog_source().unwrap();
    let document = Html::parse_document(VERDE_BLOG_PAGE);
    let found: Vec<ElementRef> = document.select(&source.rules.entry).collect();
    let first = extract_entry(found[0], &source.rules).unwrap();
    assert_eq!(
        first,
        RawEntry {
            title: "Uno".to_string(),
            link: "https://elclickverde.com/blog/uno".to_string(),
            raw_description: "Texto uno".to_string(),
            raw_date: "2023-08-15".to_string(),
        }
    );
    let all = extract_each(&found, &source.rules).unwrap();
    assert_eq!(all.len(), 2);
    assert_eq!(all[0], first);
    assert_eq!(Ok(all), extract_entries(&document, &source.rules));
    let reversed: Vec<ElementRef> = found.iter().rev().cloned().collect();
    let titles: Vec<String> = extract_each(&reversed, &source.rules).unwrap().into_iter().map(|e| e.title).collect();
    assert_eq!(titles, vec!["Dos", "Uno"]);
    let stray = document.root_element();
    assert_eq!(extract_entry(stray, &source.rules).map(|e| e.title), Ok("Uno".to_string()));
}

#[test]
fn a_pattern_that_is_no_selector_is_named() {
    let mut rules = isabel::rules();
    rules.date = FieldRule::text(vec![Step::first(".blogdate"), Step::first("p[")]);
    assert_eq!(rules.compile().err(), Some(RuleError::InvalidSelector { pattern: "p[".to_string() }));

    let mut rules = isabel::rules();
    rules.entry = "".to_string();
    rules.title = FieldRule::text(vec![Step::first(">>")]);
    assert_eq!(rules.compile().err(), Some(RuleError::InvalidSelector { pattern: "".to_string() }));

    let mut rules = isabel::rules();
    rules.title = FieldRule::text(vec![Step::first("a"), Step::first(">>"), Step::first("p[")]);
    rules.link = FieldRule::text(vec![]);
    assert_eq!(rules.compile().err(), Some(RuleError::InvalidSelector { pattern: ">>".to_string() }));
}

#[test]
fn a_chain_without_layers_is_named() {
    let mut rules = isabel::rules();
    rules.description = FieldRule::text(Vec::new());
    rules.date = FieldRule::text(Vec::new());
    assert_eq!(rules.compile().err(), Some(RuleError::EmptyChain { field: Field::Description }));
    assert_eq!(
        compile_rule(Field::Link, FieldRule::attribute(Vec::new(), "href")).err(),
        Some(RuleError::EmptyChain { field: Field::Link })
    );
}

#[test]
fn made_step_keeps_selector_and_ordinal() {
    let step = Step::nth("p", 4);
    let made = made_step(&step, Selector::parse("p").ok()).unwrap();
    assert_eq!(made.selector, Selector::parse("p").unwrap());
    assert_eq!(made.ordinal, 4);
    assert_eq!(
        made_step(&Step::first("p["), Selector::parse("p[").ok()).err(),
        Some(RuleError::InvalidSelector { pattern: "p[".to_string() })
    );
}

#[test]
fn a_source_of_one_s_own_reads_its_page() {
    let rules = RuleSet {
        entry: "li".to_string(),
        title: FieldRule::text(vec![Step::first("a")]),
        link: FieldRule::attribute(vec![Step::first("a")], "href"),
        description: FieldRule::attribute(vec![Step::first("a")], "title"),
        date: FieldRule::text(vec![Step::first("time")]),
        link_base: "https://example.org".to_string(),
    };
    let source = Source {
        envelope: Envelope { title: "t".to_string(), link: "l".to_string(), description: "d".to_string() },
        dialect: Dialect::Iso,
        rules: rules.compile().unwrap(),
    };
    let page = "<ul><li><a href=\"/a\" title=\"A\">a</a><time>2024-02-29</time></li></ul>";
    let feed = build_feed(&source, &Html::parse_document(page)).unwrap();
    let items: Vec<_> = feed.items().iter().map(item_fields).collect();
    assert_eq!(
        items,
        vec![owned(("a", "https://example.org/a", "A", "https://example.org/a", true, "Thu, 29 Feb 2024 12:00:00 +0100"))]
    );
}

#[test]
fn byte_length_counts_bytes_of_utf8() {
    assert_eq!(byte_length(""), 0);
    assert_eq!(byte_length("abc"), 3);
    assert_eq!(byte_length("ñ"), 2);
    assert_eq!(byte_length("\u{20ac}"), 3);
    assert_eq!(byte_length("\u{1f600}"), 4);
    assert_eq!(byte_length("a\u{1f600}ñ"), 7);
    assert!(text_fits(""));
    assert!(text_fits("Últimas entradas"));
    assert_eq!(MAX_TEXT_BYTES, 512 * 1024 * 1024);
}

#[test]
fn the_longest_text_that_fits_has_the_limit_s_length() {
    let mut text = "a".repeat(MAX_TEXT_BYTES - 2);
    text.push('ñ');
    assert_eq!(byte_length(&text), MAX_TEXT_BYTES);
    assert!(text_fits(&text));
    text.push(' ');
    assert_eq!(byte_length(&text), MAX_TEXT_BYTES + 1);
    assert!(!text_fits(&text));
}

#[test]
fn a_page_that_is_too_long_fails_the_request_before_it_is_parsed() {
    let source = isabel::source().unwrap();
    let page = " ".repeat(MAX_TEXT_BYTES + 1);
    assert_eq!(run(&source, &page), Err(PipelineError::Parse { bytes: MAX_TEXT_BYTES + 1 }));
    let outcome = isabel::rss(&source, Ok(page));
    assert_eq!(outcome.response, Response { status: 204, content_type: None, body: String::new() });
    assert_eq!(outcome.cause, Some(PipelineError::Parse { bytes: MAX_TEXT_BYTES + 1 }));
}

#[test]
fn a_pattern_that_is_too_long_is_refused() {
    let long = format!("p{}", " ".repeat(MAX_TEXT_BYTES));
    let mut rules = isabel::rules();
    rules.entry = long.clone();
    rules.title = FieldRule::text(vec![Step::first("p[")]);
    assert_eq!(rules.compile().err(), Some(RuleError::PatternTooLong { bytes: MAX_TEXT_BYTES + 1 }));

    let mut rules = isabel::rules();
    rules.link = FieldRule::attribute(vec![Step::first("a"), Step::nth(&long, 2)], "href");
    rules.date = FieldRule::text(vec![Step::first("p[")]);
    assert_eq!(rules.compile().err(), Some(RuleError::PatternTooLong { bytes: MAX_TEXT_BYTES + 1 }));

    let mut rules = isabel::rules();
    rules.title = FieldRule::text(vec![Step::first("p["), Step::first(&long)]);
    assert_eq!(rules.compile().err(), Some(RuleError::InvalidSelector { pattern: "p[".to_string() }));
}
