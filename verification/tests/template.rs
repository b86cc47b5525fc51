use create_gh_repo::error::ParseError;
use create_gh_repo::git::GitMode;
use create_gh_repo::strip::{begins_object, chars_of, strip_comments};
use create_gh_repo::template::{flag_literal, CreateRequest, Field};

fn sample() -> CreateRequest {
    CreateRequest {
        name: "demo".to_string(),
        description: "see // notes".to_string(),
        homepage: "https://example.org/demo".to_string(),
        private: true,
        has_issues: false,
        has_wiki: true,
        has_downloads: false,
        auto_init: false,
        gitignore_template: "Rust".to_string(),
        license_template: "mit".to_string(),
    }
}

/// The object that is left of a template, as a strict JSON decoder reads
/// it.
fn object_of(template: &str) -> serde_json::Value {
    serde_json::from_str(&strip_comments(template).unwrap()).unwrap()
}

/// Does the object hold the request, field by field, and nothing else?
fn holds(object: &serde_json::Value, request: &CreateRequest) -> bool {
    let members = object.as_object().unwrap();
    members.len() == 10
        && members["name"].as_str() == Some(request.name.as_str())
        && members["description"].as_str() == Some(request.description.as_str())
        && members["homepage"].as_str() == Some(request.homepage.as_str())
        && members["private"].as_bool() == Some(request.private)
        && members["has_issues"].as_bool() == Some(request.has_issues)
        && members["has_wiki"].as_bool() == Some(request.has_wiki)
        && members["has_downloads"].as_bool() == Some(request.has_downloads)
        && members["auto_init"].as_bool() == Some(request.auto_init)
        && members["gitignore_template"].as_str() == Some(request.gitignore_template.as_str())
        && members["license_template"].as_str() == Some(request.license_template.as_str())
}

const DEFAULT_TEMPLATE: &str = r#"{
    //Required. The name of the repository
    "name": "",
    //A short description of the repository
    "description": "",
    //A URL with more information about the repository
    "homepage": "",
    //Set to true to create a private repository
    "private": false,
    //Set to true to enable issues for the repository
    "has_issues": true,
    //Set to true to enable the wiki for the repository
    "has_wiki": false,
    //Set to true to enable downloads for the repository
    "has_downloads": false,
    //Pass true to create an initial commit with empty README
    "auto_init": true,
    //Desired language or platform .gitignore template to apply. For example, "Haskell"
    "gitignore_template": "",
    //Desired LICENSE template to apply. For example, "mit" or "mozilla"
    "license_template": ""
}"#;

#[test]
fn default_request_has_documented_defaults() {
    let request = CreateRequest::default();
    assert_eq!(request.name, "");
    assert_eq!(request.description, "");
    assert_eq!(request.homepage, "");
    assert!(!request.private);
    assert!(request.has_issues);
    assert!(!request.has_wiki);
    assert!(!request.has_downloads);
    assert!(request.auto_init);
    assert_eq!(request.gitignore_template, "");
    assert_eq!(request.license_template, "");
}

#[test]
fn default_template_text_is_exact() {
    assert_eq!(CreateRequest::default().to_template(), DEFAULT_TEMPLATE);
}

#[test]
fn template_writes_strings_as_json_literals() {
    let mut request = CreateRequest::default();
    request.name = "a\"b".to_string();
    request.description = "back\\slash".to_string();
    request.homepage = "line\nfeed\ttab".to_string();
    let text = request.to_template();
    assert!(text.contains("    \"name\": \"a\\\"b\",\n"));
    assert!(text.contains("    \"description\": \"back\\\\slash\",\n"));
    assert!(text.contains("    \"homepage\": \"line\\nfeed\\ttab\",\n"));
}

#[test]
fn template_writes_flags_as_words() {
    let text = sample().to_template();
    assert!(text.contains("    \"private\": true,\n"));
    assert!(text.contains("    \"has_issues\": false,\n"));
    assert_eq!(flag_literal(true), "true");
    assert_eq!(flag_literal(false), "false");
}

#[test]
fn stripping_a_template_leaves_the_object() {
    let kept = strip_comments(DEFAULT_TEMPLATE).unwrap();
    let expected = "{\n       \"name\": \"\",\n       \"description\": \"\",\n       \"homepage\": \"\",\n       \"private\": false,\n       \"has_issues\": true,\n       \"has_wiki\": false,\n       \"has_downloads\": false,\n       \"auto_init\": true,\n       \"gitignore_template\": \"\",\n       \"license_template\": \"\"\n}";
    assert_eq!(kept, expected);
}

#[test]
fn marker_needs_its_space() {
    assert_eq!(strip_comments("a//b\nc").unwrap(), "a//b\nc");
    assert_eq!(strip_comments("a //b\nc").unwrap(), "ac");
    assert_eq!(strip_comments("a / /b\nc").unwrap(), "a / /b\nc");
    assert_eq!(strip_comments("  //x\r\ny").unwrap(), " y");
    assert_eq!(strip_comments("").unwrap(), "");
}

#[test]
fn quotes_inside_a_comment_open_nothing() {
    assert_eq!(strip_comments("1 //say \"hi\n2").unwrap(), "12");
}

#[test]
fn escaped_quote_does_not_close_a_literal() {
    assert_eq!(strip_comments("\"a\\\" //b\" //c\nd").unwrap(), "\"a\\\" //b\"d");
}

#[test]
fn fields_have_keys_and_comments() {
    assert_eq!(Field::Name.key(), "name");
    assert_eq!(Field::HasDownloads.key(), "has_downloads");
    assert_eq!(Field::LicenseTemplate.key(), "license_template");
    assert_eq!(Field::Name.comment(), "Required. The name of the repository");
    assert_eq!(
        Field::GitignoreTemplate.comment(),
        "Desired language or platform .gitignore template to apply. For example, \"Haskell\""
    );
}

#[test]
fn chars_of_lists_every_character() {
    assert_eq!(chars_of("a\u{e9}\u{1F980}/"), vec!['a', '\u{e9}', '\u{1F980}', '/']);
    assert_eq!(chars_of(""), Vec::<char>::new());
}

#[test]
fn offered_request_is_named_after_the_repository() {
    let request = CreateRequest::offer(Some("demo".to_string()), GitMode::Clone);
    assert_eq!(request, CreateRequest { name: "demo".to_string(), ..CreateRequest::default() });
    let request = CreateRequest::offer(None, GitMode::Create);
    assert_eq!(request, CreateRequest::default());
}

#[test]
fn offered_request_for_a_push_has_no_initial_commit() {
    let request = CreateRequest::offer(Some("demo".to_string()), GitMode::Push);
    assert!(!request.auto_init);
    assert_eq!(request.name, "demo");
    assert!(request.has_issues);
}

#[test]
fn round_trip_of_default_request() {
    let request = CreateRequest::default();
    assert!(holds(&object_of(&request.to_template()), &request));
}

#[test]
fn round_trip_of_sample_request() {
    let request = sample();
    assert!(holds(&object_of(&request.to_template()), &request));
    let mut other = sample();
    other.has_wiki = false;
    assert!(!holds(&object_of(&request.to_template()), &other));
}

#[test]
fn round_trip_of_awkward_strings() {
    let mut request = sample();
    request.name = "quote \" backslash \\ slash / marker // end".to_string();
    request.description = "ends with backslash \\".to_string();
    request.homepage = "\u{1}control\r\nlines\u{7f} and caf\u{e9} \u{1F980}".to_string();
    request.gitignore_template = "\\\" //".to_string();
    request.license_template = " //".to_string();
    assert!(holds(&object_of(&request.to_template()), &request));
}

#[test]
fn comment_marker_inside_a_string_is_kept() {
    let mut request = CreateRequest::default();
    request.description = "see // notes".to_string();
    let document = strip_comments(&request.to_template()).unwrap();
    assert!(document.contains("    \"description\": \"see // notes\",\n"));
    let object = object_of(&request.to_template());
    assert_eq!(object["description"].as_str(), Some("see // notes"));
    assert!(holds(&object, &request));
}

#[test]
fn truncated_template_strips_to_an_object_that_is_not_closed() {
    for request in [CreateRequest::default(), sample()] {
        let text = request.to_template();
        let truncated = &text[..text.len() - 1];
        assert!(truncated.ends_with('\n'));
        let whole = strip_comments(&text).unwrap();
        let document = strip_comments(truncated).unwrap();
        assert_eq!(document, &whole[..whole.len() - 1]);
        assert!(serde_json::from_str::<serde_json::Value>(&document).is_err());
    }
}

#[test]
fn open_literal_is_a_grammar_failure() {
    assert_eq!(
        strip_comments("{\n    \"name\": \"demo //no end\n}"),
        Err(ParseError::GrammarFailure)
    );
    assert_eq!(strip_comments("{\"name\": \"demo"), Err(ParseError::GrammarFailure));
    assert_eq!(strip_comments("\""), Err(ParseError::GrammarFailure));
    assert_eq!(strip_comments("\"abc\\"), Err(ParseError::GrammarFailure));
    assert_eq!(strip_comments("\"abc\\\""), Err(ParseError::GrammarFailure));
}

#[test]
fn same_text_strips_the_same() {
    let text = sample().to_template();
    assert_eq!(strip_comments(&text), strip_comments(&text));
    assert_eq!(strip_comments("\"open"), strip_comments("\"open"));
}

#[test]
fn user_comments_are_dropped() {
    let text = sample().to_template().replace(
        "    \"private\": true,\n",
        "    \"private\": false, //changed my mind\n",
    );
    let mut expected = sample();
    expected.private = false;
    assert!(holds(&object_of(&text), &expected));
}

#[test]
fn comment_runs_to_the_end_of_the_text() {
    assert_eq!(strip_comments("{} //the end").unwrap(), "{}");
    let text = format!("{} //done", sample().to_template());
    assert!(holds(&object_of(&text), &sample()));
}


#[test]
fn object_begins_with_its_brace() {
    assert!(begins_object("{}"));
    assert!(begins_object(" \n\t\r{\"a\": 1}"));
    assert!(begins_object("{"));
    assert!(begins_object(&strip_comments(&sample().to_template()).unwrap()));
    assert!(!begins_object(""));
    assert!(!begins_object("   "));
    assert!(!begins_object("[{}]"));
    assert!(!begins_object("\u{a0}{}"));
    assert!(!begins_object("x{}"));
}
