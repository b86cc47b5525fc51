//! The request for a new repository, and the commented template in which a
//! user edits it.

use vstd::prelude::*;
use vstd::string::StringExecFns;
use crate::git::GitMode;
use crate::json::{encode_text, is_string_literal, json_string};
use crate::strip::{
    at_marker, is_one_line, keep, lemma_keep_twice, lemma_plain_body, lemma_strip_comment,
    lemma_strip_literal, lemma_strip_plain_run, starts_clear, strip_from, stripped, Scan,
};

verus! {

/// The parameters of the repository to create.
#[derive(Debug, Clone, PartialEq, Eq)]
pub struct CreateRequest {
    pub name: String,
    pub description: String,
    pub homepage: String,
    pub private: bool,
    pub has_issues: bool,
    pub has_wiki: bool,
    pub has_downloads: bool,
    pub auto_init: bool,
    pub gitignore_template: String,
    pub license_template: String,
}

pub struct CreateRequestView {
    pub name: Seq<char>,
    pub description: Seq<char>,
    pub homepage: Seq<char>,
    pub private: bool,
    pub has_issues: bool,
    pub has_wiki: bool,
    pub has_downloads: bool,
    pub auto_init: bool,
    pub gitignore_template: Seq<char>,
    pub license_template: Seq<char>,
}

impl View for CreateRequest {
    type V = CreateRequestView;

    open spec fn view(&self) -> CreateRequestView {
        CreateRequestView {
            name: self.name@,
            description: self.description@,
            homepage: self.homepage@,
            private: self.private,
            has_issues: self.has_issues,
            has_wiki: self.has_wiki,
            has_downloads: self.has_downloads,
            auto_init: self.auto_init,
            gitignore_template: self.gitignore_template@,
            license_template: self.license_template@,
        }
    }
}

/// The request that a session starts from when nothing is known yet.
pub open spec fn default_request() -> CreateRequestView {
    CreateRequestView {
        name: Seq::empty(),
        description: Seq::empty(),
        homepage: Seq::empty(),
        private: false,
        has_issues: true,
        has_wiki: false,
        has_downloads: false,
        auto_init: true,
        gitignore_template: Seq::empty(),
        license_template: Seq::empty(),
    }
}

impl Default for CreateRequest {
    fn default() -> (request: CreateRequest)
        ensures
            request@ == default_request(),
    {
        CreateRequest {
            name: String::new(),
            description: String::new(),
            homepage: String::new(),
            private: false,
            has_issues: true,
            has_wiki: false,
            has_downloads: false,
            auto_init: true,
            gitignore_template: String::new(),
            license_template: String::new(),
        }
    }
}

/// The fields of a request, in the order in which the template lists them.
#[derive(Debug, Copy, Clone, PartialEq, Eq, Structural)]
pub enum Field {
    Name,
    Description,
    Homepage,
    Private,
    HasIssues,
    HasWiki,
    HasDownloads,
    AutoInit,
    GitignoreTemplate,
    LicenseTemplate,
}

impl Field {
    /// The key under which the field stands in the template.
    pub open spec fn key_text(self) -> Seq<char> {
        match self {
            Field::Name => "name"@,
            Field::Description => "description"@,
            Field::Homepage => "homepage"@,
            Field::Private => "private"@,
            Field::HasIssues => "has_issues"@,
            Field::HasWiki => "has_wiki"@,
            Field::HasDownloads => "has_downloads"@,
            Field::AutoInit => "auto_init"@,
            Field::GitignoreTemplate => "gitignore_template"@,
            Field::LicenseTemplate => "license_template"@,
        }
    }

    pub fn key(self) -> (key: &'static str)
        ensures
            key@ == self.key_text(),
    {
        match self {
            Field::Name => "name",
            Field::Description => "description",
            Field::Homepage => "homepage",
            Field::Private => "private",
            Field::HasIssues => "has_issues",
            Field::HasWiki => "has_wiki",
            Field::HasDownloads => "has_downloads",
            Field::AutoInit => "auto_init",
            Field::GitignoreTemplate => "gitignore_template",
            Field::LicenseTemplate => "license_template",
        }
    }

    /// The line of explanation that the template puts above the field.
    pub open spec fn comment_text(self) -> Seq<char> {
        match self {
            Field::Name => "Required. The name of the repository"@,
            Field::Description => "A short description of the repository"@,
            Field::Homepage => "A URL with more information about the repository"@,
            Field::Private => "Set to true to create a private repository"@,
            Field::HasIssues => "Set to true to enable issues for the repository"@,
            Field::HasWiki => "Set to true to enable the wiki for the repository"@,
            Field::HasDownloads => "Set to true to enable downloads for the repository"@,
            Field::AutoInit => "Pass true to create an initial commit with empty README"@,
            Field::GitignoreTemplate =>
                "Desired language or platform .gitignore template to apply. For example, \"Haskell\""@,
            Field::LicenseTemplate =>
                "Desired LICENSE template to apply. For example, \"mit\" or \"mozilla\""@,
        }
    }

    pub fn comment(self) -> (comment: &'static str)
        ensures
            comment@ == self.comment_text(),
    {
        match self {
            Field::Name => "Required. The name of the repository",
            Field::Description => "A short description of the repository",
            Field::Homepage => "A URL with more information about the repository",
            Field::Private => "Set to true to create a private repository",
            Field::HasIssues => "Set to true to enable issues for the repository",
            Field::HasWiki => "Set to true to enable the wiki for the repository",
            Field::HasDownloads => "Set to true to enable downloads for the repository",
            Field::AutoInit => "Pass true to create an initial commit with empty README",
            Field::GitignoreTemplate =>
                "Desired language or platform .gitignore template to apply. For example, \"Haskell\"",
            Field::LicenseTemplate =>
                "Desired LICENSE template to apply. For example, \"mit\" or \"mozilla\"",
        }
    }

    /// Is this the field that closes the template?
    pub open spec fn is_last(self) -> bool {
        self == Field::LicenseTemplate
    }
}

/// How a flag is written in the template.
pub open spec fn flag_text(flag: bool) -> Seq<char> {
    if flag {
        "true"@
    } else {
        "false"@
    }
}

pub fn flag_literal(flag: bool) -> (literal: &'static str)
    ensures
        literal@ == flag_text(flag),
{
    if flag {
        "true"
    } else {
        "false"
    }
}

/// The ten values of a request as the template writes them.
pub struct Values {
    pub name: Seq<char>,
    pub description: Seq<char>,
    pub homepage: Seq<char>,
    pub private: Seq<char>,
    pub has_issues: Seq<char>,
    pub has_wiki: Seq<char>,
    pub has_downloads: Seq<char>,
    pub auto_init: Seq<char>,
    pub gitignore_template: Seq<char>,
    pub license_template: Seq<char>,
}

impl Values {
    pub open spec fn of(self, field: Field) -> Seq<char> {
        match field {
            Field::Name => self.name,
            Field::Description => self.description,
            Field::Homepage => self.homepage,
            Field::Private => self.private,
            Field::HasIssues => self.has_issues,
            Field::HasWiki => self.has_wiki,
            Field::HasDownloads => self.has_downloads,
            Field::AutoInit => self.auto_init,
            Field::GitignoreTemplate => self.gitignore_template,
            Field::LicenseTemplate => self.license_template,
        }
    }
}

/// The values of `request` as JSON: strings as literals, flags as `true` or
/// `false`.
pub open spec fn encoded(request: CreateRequestView) -> Values {
    Values {
        name: json_string(request.name),
        description: json_string(request.description),
        homepage: json_string(request.homepage),
        private: flag_text(request.private),
        has_issues: flag_text(request.has_issues),
        has_wiki: flag_text(request.has_wiki),
        has_downloads: flag_text(request.has_downloads),
        auto_init: flag_text(request.auto_init),
        gitignore_template: json_string(request.gitignore_template),
        license_template: json_string(request.license_template),
    }
}

/// How a line with a pair ends: with a comma, but for the last.
pub open spec fn line_end(last: bool) -> Seq<char> {
    if last {
        "\n"@
    } else {
        ",\n"@
    }
}

/// One pair of the template on a line of its own.
pub open spec fn pair_text(key: Seq<char>, value: Seq<char>, last: bool) -> Seq<char> {
    "    \""@ + key + "\": "@ + value + line_end(last)
}

/// One field of the template: a line of comment, then the pair.
pub open spec fn entry_text(comment: Seq<char>, key: Seq<char>, value: Seq<char>, last: bool) -> Seq<
    char,
> {
    "    //"@ + comment + "\n"@ + pair_text(key, value, last)
}

/// What is left of an entry once its comment is gone: the indentation in
/// front of the marker, then the pair.
pub open spec fn bare_entry_text(key: Seq<char>, value: Seq<char>, last: bool) -> Seq<char> {
    "   "@ + pair_text(key, value, last)
}

#[verifier::opaque]
pub open spec fn entry(values: Values, field: Field) -> Seq<char> {
    entry_text(field.comment_text(), field.key_text(), values.of(field), field.is_last())
}

#[verifier::opaque]
pub open spec fn bare_entry(values: Values, field: Field) -> Seq<char> {
    bare_entry_text(field.key_text(), values.of(field), field.is_last())
}

/// The template around `values`: an object with one commented entry for
/// each field.
pub open spec fn layout(values: Values) -> Seq<char> {
    "{\n"@ + entry(values, Field::Name) + entry(values, Field::Description) + entry(
        values,
        Field::Homepage,
    ) + entry(values, Field::Private) + entry(values, Field::HasIssues) + entry(
        values,
        Field::HasWiki,
    ) + entry(values, Field::HasDownloads) + entry(values, Field::AutoInit) + entry(
        values,
        Field::GitignoreTemplate,
    ) + entry(values, Field::LicenseTemplate) + "}"@
}

/// The template without its comments.
pub open spec fn bare_layout(values: Values) -> Seq<char> {
    "{\n"@ + bare_entry(values, Field::Name) + bare_entry(values, Field::Description)
        + bare_entry(values, Field::Homepage) + bare_entry(values, Field::Private) + bare_entry(
        values,
        Field::HasIssues,
    ) + bare_entry(values, Field::HasWiki) + bare_entry(values, Field::HasDownloads)
        + bare_entry(values, Field::AutoInit) + bare_entry(values, Field::GitignoreTemplate)
        + bare_entry(values, Field::LicenseTemplate) + "}"@
}

/// The template of `request`.
pub open spec fn template_text(request: CreateRequestView) -> Seq<char> {
    layout(encoded(request))
}

/// The JSON object of `request`, as the template spells it out.
pub open spec fn document_text(request: CreateRequestView) -> Seq<char> {
    bare_layout(encoded(request))
}

/// A value as the template writes it: a string literal or a flag.
pub open spec fn is_value_text(value: Seq<char>) -> bool {
    is_string_literal(value) || value == "true"@ || value == "false"@
}

/// A key that can stand between quotes as it is.
pub open spec fn is_plain_key(key: Seq<char>) -> bool {
    forall|i: int| 0 <= i < key.len() ==> key[i] != '"' && key[i] != '\\'
}

/// A value of the template is kept as it stands.
pub proof fn lemma_strip_value(value: Seq<char>, rest: Seq<char>)
    requires
        is_value_text(value),
        starts_clear(rest),
    ensures
        strip_from(value + rest, Scan::Plain) == keep(value, strip_from(rest, Scan::Plain)),
        value.len() > 0,
        value[0] != '/',
{
    reveal_strlit("true");
    reveal_strlit("false");
    if is_string_literal(value) {
        lemma_strip_literal(value, rest);
    } else {
        lemma_strip_plain_run(value, rest);
    }
}

/// A pair of the template is kept as it stands.
pub proof fn lemma_strip_pair(key: Seq<char>, value: Seq<char>, last: bool, rest: Seq<char>)
    requires
        is_plain_key(key),
        is_value_text(value),
        starts_clear(rest),
    ensures
        strip_from(pair_text(key, value, last) + rest, Scan::Plain) == keep(
            pair_text(key, value, last),
            strip_from(rest, Scan::Plain),
        ),
{
    reveal_strlit("    \"");
    reveal_strlit("\": ");
    reveal_strlit("\n");
    reveal_strlit(",\n");
    let indent = seq![' ', ' ', ' ', ' '];
    let quoted = seq!['"'] + key + seq!['"'];
    let colon = seq![':', ' '];
    let end = line_end(last);
    let pair = pair_text(key, value, last);
    let kept = strip_from(rest, Scan::Plain);
    lemma_strip_value(value, end + rest);
    let from_end = end + rest;
    let from_value = value + from_end;
    let from_colon = colon + from_value;
    let from_key = quoted + from_colon;
    assert(pair + rest == indent + from_key);
    assert(pair == indent + (quoted + (colon + (value + end))));
    lemma_strip_plain_run(indent, from_key);
    assert(is_string_literal(quoted)) by {
        assert(quoted.subrange(1, quoted.len() - 1) == key);
        lemma_plain_body(key);
    }
    lemma_strip_literal(quoted, from_colon);
    lemma_strip_plain_run(colon, from_value);
    lemma_strip_plain_run(end, rest);
    lemma_keep_twice(value, end, kept);
    lemma_keep_twice(colon, value + end, kept);
    lemma_keep_twice(quoted, colon + (value + end), kept);
    lemma_keep_twice(indent, quoted + (colon + (value + end)), kept);
}

/// Of an entry of the template, stripping leaves the indentation of its
/// comment and the pair: the comment goes, with its line feed, and nothing
/// else does.
pub proof fn lemma_strip_entry(
    comment: Seq<char>,
    key: Seq<char>,
    value: Seq<char>,
    last: bool,
    rest: Seq<char>,
)
    requires
        is_one_line(comment),
        is_plain_key(key),
        is_value_text(value),
        starts_clear(rest),
    ensures
        strip_from(entry_text(comment, key, value, last) + rest, Scan::Plain) == keep(
            bare_entry_text(key, value, last),
            strip_from(rest, Scan::Plain),
        ),
{
    reveal_strlit("    //");
    reveal_strlit("   ");
    reveal_strlit("\n");
    reveal_strlit("    \"");
    let indent = "   "@;
    let pair = pair_text(key, value, last);
    let kept = strip_from(rest, Scan::Plain);
    let from_pair = pair + rest;
    let from_comment = comment + seq!['\n'] + from_pair;
    let from_marker = seq![' ', '/', '/'] + from_comment;
    assert(entry_text(comment, key, value, last) + rest == indent + from_marker);
    lemma_strip_plain_run(indent, from_marker);
    assert(at_marker(from_marker));
    assert(from_marker.skip(3) == from_comment);
    lemma_strip_comment(comment, from_pair);
    lemma_strip_pair(key, value, last, rest);
    lemma_keep_twice(indent, pair, kept);
}

/// The comment of a field is one line, and its key needs no escape.
pub proof fn lemma_field_texts(field: Field)
    ensures
        is_one_line(field.comment_text()),
        is_plain_key(field.key_text()),
{
    reveal_strlit("name");
    reveal_strlit("description");
    reveal_strlit("homepage");
    reveal_strlit("private");
    reveal_strlit("has_issues");
    reveal_strlit("has_wiki");
    reveal_strlit("has_downloads");
    reveal_strlit("auto_init");
    reveal_strlit("gitignore_template");
    reveal_strlit("license_template");
    reveal_strlit("Required. The name of the repository");
    reveal_strlit("A short description of the repository");
    reveal_strlit("A URL with more information about the repository");
    reveal_strlit("Set to true to create a private repository");
    reveal_strlit("Set to true to enable issues for the repository");
    reveal_strlit("Set to true to enable the wiki for the repository");
    reveal_strlit("Set to true to enable downloads for the repository");
    reveal_strlit("Pass true to create an initial commit with empty README");
    reveal_strlit(
        "Desired language or platform .gitignore template to apply. For example, \"Haskell\"",
    );
    reveal_strlit("Desired LICENSE template to apply. For example, \"mit\" or \"mozilla\"");
}

/// Every value is a string literal or a flag.
pub open spec fn are_value_texts(values: Values) -> bool {
    forall|field: Field| is_value_text(#[trigger] values.of(field))
}

/// Stripping the entry of a field in front of `rest` leaves the bare entry
/// in front of what stripping leaves of `rest`.
pub proof fn lemma_strip_field(values: Values, field: Field, rest: Seq<char>, bare_rest: Seq<char>)
    requires
        are_value_texts(values),
        starts_clear(rest),
        strip_from(rest, Scan::Plain) == Some(bare_rest),
    ensures
        strip_from(entry(values, field) + rest, Scan::Plain) == Some(
            bare_entry(values, field) + bare_rest,
        ),
        starts_clear(entry(values, field) + rest),
{
    reveal(entry);
    reveal(bare_entry);
    reveal_strlit("    //");
    lemma_field_texts(field);
    assert(is_value_text(values.of(field)));
    lemma_strip_entry(
        field.comment_text(),
        field.key_text(),
        values.of(field),
        field.is_last(),
        rest,
    );
    assert((entry(values, field) + rest)[0] == ' ');
}

/// Ten parts between two brackets, grouped from the right.
pub open spec fn nested(open: Seq<char>, parts: Seq<Seq<char>>, close: Seq<char>) -> Seq<char>
    recommends
        parts.len() == 10,
{
    open + (parts[0] + (parts[1] + (parts[2] + (parts[3] + (parts[4] + (parts[5] + (parts[6] + (
        parts[7] + (parts[8] + (parts[9] + close))))))))))
}

/// Ten parts between two brackets, grouped from the left.
pub open spec fn chained(open: Seq<char>, parts: Seq<Seq<char>>, close: Seq<char>) -> Seq<char>
    recommends
        parts.len() == 10,
{
    open + parts[0] + parts[1] + parts[2] + parts[3] + parts[4] + parts[5] + parts[6] + parts[7]
        + parts[8] + parts[9] + close
}

/// Grouping does not change a concatenation.
pub proof fn lemma_regroup(open: Seq<char>, parts: Seq<Seq<char>>, close: Seq<char>)
    requires
        parts.len() == 10,
    ensures
        chained(open, parts, close) == nested(open, parts, close),
{
    let tail9 = parts[9] + close;
    let tail8 = parts[8] + tail9;
    let tail7 = parts[7] + tail8;
    let tail6 = parts[6] + tail7;
    let tail5 = parts[5] + tail6;
    let tail4 = parts[4] + tail5;
    let tail3 = parts[3] + tail4;
    let tail2 = parts[2] + tail3;
    let tail1 = parts[1] + tail2;
    let head0 = open + parts[0];
    let head1 = head0 + parts[1];
    let head2 = head1 + parts[2];
    let head3 = head2 + parts[3];
    let head4 = head3 + parts[4];
    let head5 = head4 + parts[5];
    let head6 = head5 + parts[6];
    let head7 = head6 + parts[7];
    let head8 = head7 + parts[8];
    assert((head8 + parts[9]) + close == head8 + tail9);
    assert((head7 + parts[8]) + tail9 == head7 + tail8);
    assert((head6 + parts[7]) + tail8 == head6 + tail7);
    assert((head5 + parts[6]) + tail7 == head5 + tail6);
    assert((head4 + parts[5]) + tail6 == head4 + tail5);
    assert((head3 + parts[4]) + tail5 == head3 + tail4);
    assert((head2 + parts[3]) + tail4 == head2 + tail3);
    assert((head1 + parts[2]) + tail3 == head1 + tail2);
    assert((head0 + parts[1]) + tail2 == head0 + tail1);
    assert((open + parts[0]) + tail1 == open + (parts[0] + tail1));
}

/// The entries of a template, in order.
pub open spec fn entries(values: Values) -> Seq<Seq<char>> {
    seq![
        entry(values, Field::Name),
        entry(values, Field::Description),
        entry(values, Field::Homepage),
        entry(values, Field::Private),
        entry(values, Field::HasIssues),
        entry(values, Field::HasWiki),
        entry(values, Field::HasDownloads),
        entry(values, Field::AutoInit),
        entry(values, Field::GitignoreTemplate),
        entry(values, Field::LicenseTemplate),
    ]
}

/// The entries of a template without their comments, in order.
pub open spec fn bare_entries(values: Values) -> Seq<Seq<char>> {
    seq![
        bare_entry(values, Field::Name),
        bare_entry(values, Field::Description),
        bare_entry(values, Field::Homepage),
        bare_entry(values, Field::Private),
        bare_entry(values, Field::HasIssues),
        bare_entry(values, Field::HasWiki),
        bare_entry(values, Field::HasDownloads),
        bare_entry(values, Field::AutoInit),
        bare_entry(values, Field::GitignoreTemplate),
        bare_entry(values, Field::LicenseTemplate),
    ]
}

/// Stripping the entries of a template between its opening brace and any
/// `close` that comes through stripping as it is leaves the bare entries
/// between the two.
pub proof fn lemma_entries_strip(values: Values, close: Seq<char>)
    requires
        are_value_texts(values),
        starts_clear(close),
        strip_from(close, Scan::Plain) == Some(close),
    ensures
        stripped(chained("{\n"@, entries(values), close)) == Some(
            chained("{\n"@, bare_entries(values), close),
        ),
{
    let open = "{\n"@;
    let e = entries(values);
    let b = bare_entries(values);
    lemma_regroup(open, e, close);
    lemma_regroup(open, b, close);
    let t9 = e[9] + close;
    let t8 = e[8] + t9;
    let t7 = e[7] + t8;
    let t6 = e[6] + t7;
    let t5 = e[5] + t6;
    let t4 = e[4] + t5;
    let t3 = e[3] + t4;
    let t2 = e[2] + t3;
    let t1 = e[1] + t2;
    let t0 = e[0] + t1;
    let s9 = b[9] + close;
    let s8 = b[8] + s9;
    let s7 = b[7] + s8;
    let s6 = b[6] + s7;
    let s5 = b[5] + s6;
    let s4 = b[4] + s5;
    let s3 = b[3] + s4;
    let s2 = b[2] + s3;
    let s1 = b[1] + s2;
    let s0 = b[0] + s1;
    lemma_strip_field(values, Field::LicenseTemplate, close, close);
    lemma_strip_field(values, Field::GitignoreTemplate, t9, s9);
    lemma_strip_field(values, Field::AutoInit, t8, s8);
    lemma_strip_field(values, Field::HasDownloads, t7, s7);
    lemma_strip_field(values, Field::HasWiki, t6, s6);
    lemma_strip_field(values, Field::HasIssues, t5, s5);
    lemma_strip_field(values, Field::Private, t4, s4);
    lemma_strip_field(values, Field::Homepage, t3, s3);
    lemma_strip_field(values, Field::Description, t2, s2);
    lemma_strip_field(values, Field::Name, t1, s1);
    assert(strip_from(open + t0, Scan::Plain) == Some(open + s0)) by {
        reveal_strlit("{\n");
        lemma_strip_plain_run(open, t0);
    }
}

/// Comment stripping takes exactly the comments out of a template: each
/// value comes through as it was written, whatever a string literal holds, a
/// comment marker included.
pub proof fn lemma_layout_strips(values: Values)
    requires
        are_value_texts(values),
    ensures
        stripped(layout(values)) == Some(bare_layout(values)),
{
    let close = "}"@;
    assert(strip_from(close, Scan::Plain) == Some(close) && starts_clear(close)) by {
        reveal_strlit("}");
        let nothing = Seq::<char>::empty();
        lemma_strip_plain_run(close, nothing);
        assert(close + nothing == close);
    }
    lemma_entries_strip(values, close);
    assert(layout(values) == chained("{\n"@, entries(values), close));
    assert(bare_layout(values) == chained("{\n"@, bare_entries(values), close));
}

/// A template without its closing brace still comes through comment
/// stripping, as the object without its closing brace: reading it is no
/// `GrammarFailure`, and what the decoder gets to see is an object that is
/// not closed.
pub proof fn lemma_unclosed_template_strips(values: Values)
    requires
        are_value_texts(values),
    ensures
        stripped(layout(values).drop_last()) == Some(bare_layout(values).drop_last()),
{
    let nothing = Seq::<char>::empty();
    let open = "{\n"@;
    reveal_strlit("}");
    lemma_entries_strip(values, nothing);
    let whole = chained(open, entries(values), "}"@);
    let bare = chained(open, bare_entries(values), "}"@);
    assert(layout(values) == whole);
    assert(bare_layout(values) == bare);
    assert(whole.drop_last() == chained(open, entries(values), nothing));
    assert(bare.drop_last() == chained(open, bare_entries(values), nothing));
}

/// Appends the entry of `field` with `value` to `text`.
fn push_entry(text: &mut String, field: Field, value: &str)
    ensures
        final(text)@ == old(text)@ + entry_text(
            field.comment_text(),
            field.key_text(),
            value@,
            field.is_last(),
        ),
{
    text.append("    //");
    text.append(field.comment());
    text.append("\n");
    text.append("    \"");
    text.append(field.key());
    text.append("\": ");
    text.append(value);
    match field {
        Field::LicenseTemplate => text.append("\n"),
        _ => text.append(",\n"),
    }
    assert(text@ =~= old(text)@ + entry_text(
        field.comment_text(),
        field.key_text(),
        value@,
        field.is_last(),
    ));
}

/// The request that a run offers: the defaults, under the name of the local
/// repository where there is one, and with an initial commit unless the
/// local repository is to be pushed.
pub open spec fn offered_request(name: Option<Seq<char>>, mode: GitMode) -> CreateRequestView {
    CreateRequestView {
        name: match name {
            Some(n) => n,
            None => Seq::empty(),
        },
        auto_init: mode != GitMode::Push,
        ..default_request()
    }
}

impl CreateRequest {
    /// The request to offer in the editor.
    pub fn offer(name: Option<String>, mode: GitMode) -> (request: CreateRequest)
        ensures
            request@ == offered_request(
                match name {
                    Some(n) => Some(n@),
                    None => None,
                },
                mode,
            ),
    {
        let mut request = CreateRequest::default();
        request.name = match name {
            Some(name) => name,
            None => String::new(),
        };
        request.auto_init = mode.wants_initial_commit();
        request
    }

    /// Renders the request as a template: a JSON object with one line of
    /// comment above each field.
    ///
    /// Stripping the comments from the result leaves the object alone, so
    /// that reading the template back comes down to decoding that object.
    /// The same holds of the result without its closing brace: it strips to
    /// the object without that brace.
    pub fn to_template(&self) -> (text: String)
        ensures
            text@ == template_text(self@),
            stripped(text@) == Some(document_text(self@)),
            stripped(text@.drop_last()) == Some(document_text(self@).drop_last()),
    {
        let name = encode_text(self.name.as_str());
        let description = encode_text(self.description.as_str());
        let homepage = encode_text(self.homepage.as_str());
        let gitignore_template = encode_text(self.gitignore_template.as_str());
        let license_template = encode_text(self.license_template.as_str());
        let mut text = "{\n".to_owned();
        push_entry(&mut text, Field::Name, name.as_str());
        push_entry(&mut text, Field::Description, description.as_str());
        push_entry(&mut text, Field::Homepage, homepage.as_str());
        push_entry(&mut text, Field::Private, flag_literal(self.private));
        push_entry(&mut text, Field::HasIssues, flag_literal(self.has_issues));
        push_entry(&mut text, Field::HasWiki, flag_literal(self.has_wiki));
        push_entry(&mut text, Field::HasDownloads, flag_literal(self.has_downloads));
        push_entry(&mut text, Field::AutoInit, flag_literal(self.auto_init));
        push_entry(&mut text, Field::GitignoreTemplate, gitignore_template.as_str());
        push_entry(&mut text, Field::LicenseTemplate, license_template.as_str());
        text.append("}");
        proof {
            let values = encoded(self@);
            reveal(entry);
            assert(text@ == layout(values));
            assert forall|field: Field| is_value_text(#[trigger] values.of(field)) by {}
            lemma_layout_strips(values);
            lemma_unclosed_template_strips(values);
        }
        text
    }
}

} // verus!
