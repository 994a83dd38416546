//! The build description: what the build engine is told to build.
//!
//! The description is rendered from a template by the `tera` crate, from the
//! project's identity and the build's parameters. Its line endings are then
//! normalized, and it is held against the copy that is already in place, so
//! that a copy is only replaced where the content differs.

use crate::report::{Level, Notice, NoticeModel};
use crate::text::{
    lemma_normalized_has_no_carriage_return, lemma_normalized_idempotent,
    normalize_line_endings, normalized, same_text, text3,
};
use vstd::prelude::*;
use vstd::string::*;

verus! {

// ---------------------------------------------------------------------------
// The template engine
// ---------------------------------------------------------------------------

/// `tera::Context`: what a template is rendered with. A context is a map
/// from keys to values. Three names tell what it holds: its texts, its
/// tables, and the keys that it binds to anything else.
#[verifier::external_type_specification]
#[verifier::external_body]
pub struct ExContext(tera::Context);

/// `tera::Error`: why a template could not be rendered.
#[verifier::external_type_specification]
#[verifier::external_body]
pub struct ExTeraError(tera::Error);

/// The texts that a `tera::Context` binds: for each key whose value is a
/// string, that string.
pub uninterp spec fn context_texts(context: tera::Context) -> Map<Seq<char>, Seq<char>>;

/// The tables that a `tera::Context` binds: for each key whose value is a
/// list of records, that list, each record a text for each of its fields.
pub uninterp spec fn context_tables(context: tera::Context) -> Map<
    Seq<char>,
    Seq<Map<Seq<char>, Seq<char>>>,
>;

/// The keys that a `tera::Context` binds to a value that is neither a
/// string nor a list of records of strings.
pub uninterp spec fn context_others(context: tera::Context) -> Set<Seq<char>>;

/// What `tera::Tera::one_off` renders, without escaping, from the template
/// of this library and a context that binds these texts and tables and
/// nothing else; nothing where it reports an error.
pub uninterp spec fn rendered(
    template: Seq<char>,
    texts: Map<Seq<char>, Seq<char>>,
    tables: Map<Seq<char>, Seq<Map<Seq<char>, Seq<char>>>>,
) -> Option<Seq<char>>;

/// The record that a list of fields and values makes.
pub open spec fn record_of(fields: Seq<(Seq<char>, Seq<char>)>) -> Map<Seq<char>, Seq<char>>
    decreases fields.len(),
{
    if fields.len() == 0 {
        Map::empty()
    } else {
        record_of(fields.drop_last()).insert(fields.last().0, fields.last().1)
    }
}

/// The records that the rows of a table make.
pub open spec fn records_of(rows: Seq<Seq<(Seq<char>, Seq<char>)>>) -> Seq<
    Map<Seq<char>, Seq<char>>,
> {
    rows.map_values(|row: Seq<(Seq<char>, Seq<char>)>| record_of(row))
}

/// No text bound.
pub open spec fn no_texts() -> Map<Seq<char>, Seq<char>> {
    Map::empty()
}

/// No key.
pub open spec fn no_keys() -> Set<Seq<char>> {
    Set::empty()
}

/// No field of `row` is named twice.
pub open spec fn has_distinct_fields(row: Seq<(Seq<char>, Seq<char>)>) -> bool {
    forall|a: int, b: int|
        0 <= a < b < row.len() ==> (#[trigger] row[a]).0 != (#[trigger] row[b]).0
}

/// No row of `rows` names a field twice.
pub open spec fn all_distinct_fields(rows: Seq<Seq<(Seq<char>, Seq<char>)>>) -> bool {
    forall|i: int| 0 <= i < rows.len() ==> has_distinct_fields(#[trigger] rows[i])
}

/// No table bound.
pub open spec fn no_tables() -> Map<Seq<char>, Seq<Map<Seq<char>, Seq<char>>>> {
    Map::empty()
}

/// `tera::Context::new` makes a context that binds nothing.
#[verifier::external_body]
fn context_new() -> (context: tera::Context)
    ensures
        context_texts(context) == no_texts(),
        context_tables(context) == no_tables(),
        context_others(context) == no_keys(),
{
    tera::Context::new()
}

/// `tera::Context::insert` with a string: afterwards the key is bound to
/// that text, and to nothing else; every other binding stays.
#[verifier::external_body]
fn context_insert_text(context: &mut tera::Context, key: &str, value: &str)
    ensures
        context_texts(*final(context)) == context_texts(*old(context)).insert(key@, value@),
        context_tables(*final(context)) == context_tables(*old(context)).remove(key@),
        context_others(*final(context)) == context_others(*old(context)).remove(key@),
{
    context.insert(key, value);
}

/// `tera::Context::insert` with a list of maps from strings to strings,
/// one map for each row and one entry for each of its fields: afterwards
/// the key is bound to that table, and to nothing else; every other binding
/// stays.
#[verifier::external_body]
fn context_insert_table(context: &mut tera::Context, key: &str, rows: &Vec<Vec<(String, String)>>)
    requires
        all_distinct_fields(rows.deep_view()),
    ensures
        context_tables(*final(context)) == context_tables(*old(context)).insert(
            key@,
            records_of(rows.deep_view()),
        ),
        context_texts(*final(context)) == context_texts(*old(context)).remove(key@),
        context_others(*final(context)) == context_others(*old(context)).remove(key@),
{
    let table: Vec<std::collections::BTreeMap<&str, &str>> = rows.iter().map(
        |row| row.iter().map(|field| (field.0.as_str(), field.1.as_str())).collect(),
    ).collect();
    context.insert(key, &table);
}

/// `tera::Tera::one_off`, without escaping, renders `template` with
/// `context` in an engine of its own. The template of this library only
/// writes variables, loops over a list and tests a text: it calls no
/// function and no filter, computes nothing, and includes nothing. On a
/// context of texts and tables the call therefore returns, and its outcome
/// depends on the bindings alone: it is the one that `rendered` names.
#[verifier::external_body]
fn render_one_off(template: &str, context: &tera::Context) -> (r: Result<String, tera::Error>)
    requires
        template@ == FLAKE_TEMPLATE@,
        context_others(*context) == no_keys(),
    ensures
        match r {
            Ok(text) => rendered(template@, context_texts(*context), context_tables(*context))
                == Some(text@),
            Err(_) => rendered(template@, context_texts(*context), context_tables(*context))
                is None,
        },
{
    tera::Tera::one_off(template, context, false)
}

/// The message of a `tera::Error`, as its `Display` gives it. Nothing is
/// promised of the text.
#[verifier::external_body]
fn template_error_text(error: &tera::Error) -> (text: String) {
    error.to_string()
}

// ---------------------------------------------------------------------------
// What a description is generated from
// ---------------------------------------------------------------------------

/// An extra input of the build description.
#[derive(Debug)]
pub struct ExtraInput {
    pub name: String,
    pub url: String,
}

/// What an `ExtraInput` is, to a contract.
pub struct ExtraInputModel {
    pub name: Seq<char>,
    pub url: Seq<char>,
}

impl DeepView for ExtraInput {
    type V = ExtraInputModel;

    open spec fn deep_view(&self) -> ExtraInputModel {
        ExtraInputModel { name: self.name@, url: self.url@ }
    }
}

/// A package of the project, as its metadata tell of it.
#[derive(Debug)]
pub struct PackageInfo {
    pub id: String,
    pub name: String,
    pub version: String,
}

/// What a `PackageInfo` is, to a contract.
pub struct PackageInfoModel {
    pub id: Seq<char>,
    pub name: Seq<char>,
    pub version: Seq<char>,
}

impl DeepView for PackageInfo {
    type V = PackageInfoModel;

    open spec fn deep_view(&self) -> PackageInfoModel {
        PackageInfoModel { id: self.id@, name: self.name@, version: self.version@ }
    }
}

/// Why no description could be generated.
#[derive(Debug)]
pub enum DescriptorError {
    /// The project's identity could not be resolved.
    Metadata,
    /// The template could not be rendered; the text says why.
    Template(String),
}

/// What a `DescriptorError` is, to a contract.
pub enum DescriptorErrorModel {
    Metadata,
    Template(Seq<char>),
}

impl DeepView for DescriptorError {
    type V = DescriptorErrorModel;

    open spec fn deep_view(&self) -> DescriptorErrorModel {
        match self {
            DescriptorError::Metadata => DescriptorErrorModel::Metadata,
            DescriptorError::Template(text) => DescriptorErrorModel::Template(text@),
        }
    }
}

/// The kind of a failure to generate. What a template error says is the
/// engine's text, and no contract of the generation speaks of it.
#[derive(Clone, Copy, PartialEq, Eq, Structural, Debug)]
pub enum DescriptorFailure {
    Metadata,
    Template,
}

impl DescriptorErrorModel {
    /// The kind of the failure.
    pub open spec fn kind(self) -> DescriptorFailure {
        match self {
            DescriptorErrorModel::Metadata => DescriptorFailure::Metadata,
            DescriptorErrorModel::Template(_) => DescriptorFailure::Template,
        }
    }

    /// The failure in one line.
    pub open spec fn message(self) -> Seq<char> {
        match self {
            DescriptorErrorModel::Metadata => "Could not find package in metadata"@,
            DescriptorErrorModel::Template(text) => text,
        }
    }
}

impl DescriptorError {
    /// The failure in one line.
    pub fn message(&self) -> (r: String)
        ensures
            r@ == self.deep_view().message(),
    {
        match self {
            DescriptorError::Metadata => String::from_str("Could not find package in metadata"),
            DescriptorError::Template(text) => text.clone(),
        }
    }
}

/// The position of the first of `packages` whose identifier is `id`, if
/// there is one.
pub open spec fn position_of(packages: Seq<PackageInfoModel>, id: Seq<char>) -> Option<int>
    decreases packages.len(),
{
    if packages.len() == 0 {
        None
    } else if position_of(packages.drop_last(), id) is Some {
        position_of(packages.drop_last(), id)
    } else if packages.last().id == id {
        Some(packages.len() - 1)
    } else {
        None
    }
}

/// The package that the project is: the first whose identifier is that of
/// the first member of the workspace. A workspace without members, or
/// without a package for its first member, has none.
pub open spec fn project_package(packages: Seq<PackageInfoModel>, members: Seq<Seq<char>>) -> Option<
    int,
> {
    if members.len() == 0 {
        None
    } else {
        position_of(packages, members[0])
    }
}

/// `position_of` is the one position at which `id` stands and before which
/// it does not; it is none where `id` stands nowhere.
pub proof fn lemma_position_of(packages: Seq<PackageInfoModel>, id: Seq<char>)
    ensures
        match position_of(packages, id) {
            Some(k) => 0 <= k < packages.len() && packages[k].id == id && forall|j: int|
                0 <= j < k ==> (#[trigger] packages[j]).id != id,
            None => forall|j: int| 0 <= j < packages.len() ==> (#[trigger] packages[j]).id != id,
        },
    decreases packages.len(),
{
    if packages.len() > 0 {
        let front = packages.drop_last();
        lemma_position_of(front, id);
        assert forall|j: int| 0 <= j < front.len() implies front[j] == packages[j] by {}
        match position_of(front, id) {
            Some(k) => {
                assert(front[k] == packages[k]);
                assert forall|j: int| 0 <= j < k implies (#[trigger] packages[j]).id != id by {
                    assert(front[j] == packages[j]);
                }
            },
            None => {
                assert forall|j: int| 0 <= j < packages.len() - 1 implies (
                #[trigger] packages[j]).id != id by {
                    assert(front[j] == packages[j]);
                }
            },
        }
    }
}

/// Finds the package that the project is.
pub fn resolve_package(packages: &Vec<PackageInfo>, members: &Vec<String>) -> (r: Option<usize>)
    ensures
        match r {
            Some(k) => project_package(packages.deep_view(), members.deep_view()) == Some(
                k as int,
            ) && k < packages.len(),
            None => project_package(packages.deep_view(), members.deep_view()) is None,
        },
{
    if members.len() == 0 {
        return None;
    }
    let id = members[0].as_str();
    let mut i: usize = 0;
    assert(packages.deep_view().take(0) =~= Seq::<PackageInfoModel>::empty());
    while i < packages.len()
        invariant
            i <= packages.len(),
            members.len() > 0,
            id@ == members.deep_view()[0],
            position_of(packages.deep_view().take(i as int), id@) is None,
        decreases packages.len() - i,
    {
        let ghost now = packages.deep_view().take(i + 1);
        assert(now.drop_last() =~= packages.deep_view().take(i as int));
        assert(now.last() == packages@[i as int].deep_view());
        if same_text(packages[i].id.as_str(), id) {
            proof {
                lemma_position_of(packages.deep_view(), id@);
                let before = packages.deep_view().take(i as int);
                lemma_position_of(before, id@);
                let found = position_of(packages.deep_view(), id@);
                assert(packages.deep_view()[i as int].id == id@);
                assert(found is Some);
                if found->0 < i {
                    assert(before[found->0] == packages.deep_view()[found->0]);
                }
            }
            return Some(i);
        }
        i += 1;
    }
    assert(packages.deep_view().take(packages.len() as int) =~= packages.deep_view());
    None
}

// ---------------------------------------------------------------------------
// Generating
// ---------------------------------------------------------------------------

/// The texts that the description's template is rendered with.
pub open spec fn flake_texts(
    package: PackageInfoModel,
    rust_channel: Seq<char>,
    rust_version: Seq<char>,
    nixpkgs_url: Seq<char>,
) -> Map<Seq<char>, Seq<char>> {
    no_texts().insert("package_name"@, package.name).insert(
        "package_version"@,
        package.version,
    ).insert("rust_channel"@, rust_channel).insert("rust_version"@, rust_version).insert(
        "nixpkgs_url"@,
        nixpkgs_url,
    ).insert("musl_version"@, ""@)
}

/// The record of an extra input: its name and its source.
pub open spec fn input_record(input: ExtraInputModel) -> Map<Seq<char>, Seq<char>> {
    no_texts().insert("name"@, input.name).insert("url"@, input.url)
}

/// The tables that the description's template is rendered with: the extra
/// inputs, in the order given.
pub open spec fn flake_tables(inputs: Seq<ExtraInputModel>) -> Map<
    Seq<char>,
    Seq<Map<Seq<char>, Seq<char>>>,
> {
    no_tables().insert(
        "extra_inputs"@,
        inputs.map_values(|input: ExtraInputModel| input_record(input)),
    )
}

/// What becomes of what the engine rendered: the text with its line endings
/// normalized, or a template error.
pub open spec fn finished(raw: Option<Seq<char>>) -> Result<Seq<char>, DescriptorFailure> {
    match raw {
        Some(text) => Ok(normalized(text)),
        None => Err(DescriptorFailure::Template),
    }
}

/// The description of a project, or why there is none: a metadata error
/// where the project's identity cannot be resolved, a template error where
/// the engine cannot render the template, else the rendered text with its
/// line endings normalized.
pub open spec fn generated(
    packages: Seq<PackageInfoModel>,
    members: Seq<Seq<char>>,
    inputs: Seq<ExtraInputModel>,
    rust_channel: Seq<char>,
    rust_version: Seq<char>,
    nixpkgs_url: Seq<char>,
) -> Result<Seq<char>, DescriptorFailure> {
    match project_package(packages, members) {
        None => Err(DescriptorFailure::Metadata),
        Some(k) => finished(
            rendered(
                FLAKE_TEMPLATE@,
                flake_texts(packages[k], rust_channel, rust_version, nixpkgs_url),
                flake_tables(inputs),
            ),
        ),
    }
}

/// How a generation ended, to a contract.
pub open spec fn generation_model(r: Result<String, DescriptorError>) -> Result<
    Seq<char>,
    DescriptorFailure,
> {
    match r {
        Ok(text) => Ok(text@),
        Err(e) => Err(e.deep_view().kind()),
    }
}

/// The rows of the table of extra inputs.
fn input_rows(inputs: &Vec<ExtraInput>) -> (rows: Vec<Vec<(String, String)>>)
    ensures
        records_of(rows.deep_view()) == inputs.deep_view().map_values(
            |input: ExtraInputModel| input_record(input),
        ),
        all_distinct_fields(rows.deep_view()),
{
    let mut rows: Vec<Vec<(String, String)>> = Vec::new();
    let mut i: usize = 0;
    while i < inputs.len()
        invariant
            i <= inputs.len(),
            rows.len() == i,
            forall|j: int|
                0 <= j < i ==> record_of(#[trigger] rows.deep_view()[j]) == input_record(
                    inputs.deep_view()[j],
                ),
            all_distinct_fields(rows.deep_view()),
        decreases inputs.len() - i,
    {
        let mut row: Vec<(String, String)> = Vec::new();
        row.push((String::from_str("name"), inputs[i].name.clone()));
        row.push((String::from_str("url"), inputs[i].url.clone()));
        proof {
            let fields = row.deep_view();
            assert(fields.len() == 2);
            assert(fields[0] == ("name"@, inputs.deep_view()[i as int].name));
            assert(fields[1] == ("url"@, inputs.deep_view()[i as int].url));
            assert(fields.drop_last().drop_last() =~= Seq::<(Seq<char>, Seq<char>)>::empty());
            assert(fields.drop_last().last() == fields[0]);
            reveal_with_fuel(record_of, 3);
            assert(record_of(fields) == input_record(inputs.deep_view()[i as int]));
            reveal_strlit("name");
            reveal_strlit("url");
            assert("name"@.len() != "url"@.len());
            assert(has_distinct_fields(fields));
        }
        let ghost before = rows.deep_view();
        rows.push(row);
        assert(rows.deep_view() =~= before.push(row.deep_view()));
        i += 1;
    }
    assert(records_of(rows.deep_view()) =~= inputs.deep_view().map_values(
        |input: ExtraInputModel| input_record(input),
    ));
    rows
}

/// The context that the description's template is rendered with.
fn flake_context(
    package: &PackageInfo,
    inputs: &Vec<ExtraInput>,
    rust_channel: &str,
    rust_version: &str,
    nixpkgs_url: &str,
) -> (context: tera::Context)
    ensures
        context_texts(context) == flake_texts(
            package.deep_view(),
            rust_channel@,
            rust_version@,
            nixpkgs_url@,
        ),
        context_tables(context) == flake_tables(inputs.deep_view()),
        context_others(context) == no_keys(),
{
    let mut context = context_new();
    context_insert_text(&mut context, "package_name", package.name.as_str());
    context_insert_text(&mut context, "package_version", package.version.as_str());
    context_insert_text(&mut context, "rust_channel", rust_channel);
    context_insert_text(&mut context, "rust_version", rust_version);
    context_insert_text(&mut context, "nixpkgs_url", nixpkgs_url);
    context_insert_text(&mut context, "musl_version", "");
    assert(context_tables(context) =~= no_tables());
    assert(context_others(context) =~= no_keys());
    let ghost texts = context_texts(context);
    let rows = input_rows(inputs);
    context_insert_table(&mut context, "extra_inputs", &rows);
    proof {
        reveal_strlit("extra_inputs");
        reveal_strlit("package_name");
        reveal_strlit("package_version");
        reveal_strlit("rust_channel");
        reveal_strlit("rust_version");
        reveal_strlit("nixpkgs_url");
        reveal_strlit("musl_version");
        let key = "extra_inputs"@;
        assert("package_name"@[0] != key[0]);
        assert("package_version"@[0] != key[0]);
        assert("rust_channel"@[0] != key[0]);
        assert("rust_version"@[0] != key[0]);
        assert("nixpkgs_url"@[0] != key[0]);
        assert("musl_version"@[0] != key[0]);
        assert(texts.remove(key) =~= texts);
        assert(context_others(context) =~= no_keys());
    }
    context
}

/// Turns what the engine rendered, or the text of its error, into the
/// description: the rendered text with every line ending a single line
/// feed, as the build engine wants it.
pub fn finish_descriptor(raw: Result<String, String>) -> (r: Result<String, DescriptorError>)
    ensures
        match raw {
            Ok(text) => r matches Ok(out) && out@ == normalized(text@),
            Err(reason) => r matches Err(DescriptorError::Template(text)) && text@ == reason@,
        },
        r matches Ok(out) ==> forall|i: int| 0 <= i < out@.len() ==> out@[i] != '\r',
{
    match raw {
        Ok(text) => {
            proof {
                lemma_normalized_has_no_carriage_return(text@);
            }
            Ok(normalize_line_endings(text.as_str()))
        },
        Err(reason) => Err(DescriptorError::Template(reason)),
    }
}

/// Generates the description of a project from the template of this
/// library.
///
/// `packages` and `members` are the project's metadata: its packages, and
/// the identifiers of the members of its workspace. The project is the
/// package of the first member.
pub fn generate_flake_file(
    packages: &Vec<PackageInfo>,
    members: &Vec<String>,
    inputs: &Vec<ExtraInput>,
    rust_channel: &str,
    rust_version: &str,
    nixpkgs_url: &str,
) -> (r: Result<String, DescriptorError>)
    ensures
        generation_model(r) == generated(
            packages.deep_view(),
            members.deep_view(),
            inputs.deep_view(),
            rust_channel@,
            rust_version@,
            nixpkgs_url@,
        ),
        r matches Ok(out) ==> forall|i: int| 0 <= i < out@.len() ==> out@[i] != '\r',
{
    let k = match resolve_package(packages, members) {
        Some(k) => k,
        None => {
            return Err(DescriptorError::Metadata);
        },
    };
    let context = flake_context(&packages[k], inputs, rust_channel, rust_version, nixpkgs_url);
    let raw = match render_one_off(FLAKE_TEMPLATE, &context) {
        Ok(text) => Ok(text),
        Err(e) => Err(template_error_text(&e)),
    };
    finish_descriptor(raw)
}

/// Generating is a function of its inputs: the same metadata and
/// parameters give the same description, character for character, or the
/// same kind of error. A description that was generated stays as it is
/// when its line endings are normalized once more.
pub proof fn lemma_generation_is_deterministic(
    packages: Seq<PackageInfoModel>,
    members: Seq<Seq<char>>,
    inputs: Seq<ExtraInputModel>,
    rust_channel: Seq<char>,
    rust_version: Seq<char>,
    nixpkgs_url: Seq<char>,
    first: Result<Seq<char>, DescriptorFailure>,
    second: Result<Seq<char>, DescriptorFailure>,
)
    requires
        first == generated(packages, members, inputs, rust_channel, rust_version, nixpkgs_url),
        second == generated(packages, members, inputs, rust_channel, rust_version, nixpkgs_url),
    ensures
        first == second,
        first matches Ok(text) ==> normalized(text) == text,
{
    match project_package(packages, members) {
        Some(k) => {
            match rendered(
                FLAKE_TEMPLATE@,
                flake_texts(packages[k], rust_channel, rust_version, nixpkgs_url),
                flake_tables(inputs),
            ) {
                Some(raw) => {
                    lemma_normalized_idempotent(raw);
                },
                None => {},
            }
        },
        None => {},
    }
}

// ---------------------------------------------------------------------------
// Holding a description against the copy in place
// ---------------------------------------------------------------------------

/// Whether two texts differ by more than their line endings.
pub open spec fn texts_differ(a: Seq<char>, b: Seq<char>) -> bool {
    normalized(a) != normalized(b)
}

/// Whether the contents of two files differ by more than their line
/// endings.
pub fn files_differ(content1: &str, content2: &str) -> (r: bool)
    ensures
        r == texts_differ(content1@, content2@),
{
    let a = normalize_line_endings(content1);
    let b = normalize_line_endings(content2);
    !same_text(a.as_str(), b.as_str())
}

/// How a generated description stands to the copy in place.
#[derive(Clone, Copy, PartialEq, Eq, Structural, Debug)]
pub enum Drift {
    /// There is no copy in place.
    Absent,
    /// The copy in place says the same.
    Matches,
    /// The copy in place says something else.
    Differs,
}

/// How `generated` stands to `existing`, the copy in place if there is one.
pub open spec fn drift_of(existing: Option<Seq<char>>, generated: Seq<char>) -> Drift {
    match existing {
        None => Drift::Absent,
        Some(text) => if texts_differ(text, generated) {
            Drift::Differs
        } else {
            Drift::Matches
        },
    }
}

/// How `generated` stands to `existing`, the copy in place if there is one.
pub fn drift(existing: &Option<String>, generated: &str) -> (r: Drift)
    ensures
        r == drift_of(existing.deep_view(), generated@),
{
    match existing {
        None => Drift::Absent,
        Some(text) => {
            if files_differ(text.as_str(), generated) {
                Drift::Differs
            } else {
                Drift::Matches
            }
        },
    }
}

pub open spec fn flake_absent_notice(existing_path: Seq<char>) -> Seq<char> {
    "No existing flake.nix found at "@ + existing_path + ", using generated one."@
}

pub open spec fn flake_matches_notice() -> Seq<char> {
    "Generated flake.nix matches existing configuration."@
}

pub open spec fn flake_differs_notice(existing_path: Seq<char>) -> Seq<char> {
    "Generated flake.nix differs from existing "@ + existing_path
}

pub open spec fn flake_available_notice(generated_path: Seq<char>) -> Seq<char> {
    "Generated flake.nix is available at: "@ + generated_path
}

/// What the user is told of a generated description and the copy in place.
pub open spec fn flake_change_notices(
    generated_path: Seq<char>,
    existing_path: Seq<char>,
    drift: Drift,
) -> Seq<NoticeModel> {
    match drift {
        Drift::Absent => seq![
            NoticeModel { level: Level::Success, text: flake_absent_notice(existing_path) },
        ],
        Drift::Matches => seq![
            NoticeModel { level: Level::Success, text: flake_matches_notice() },
        ],
        Drift::Differs => seq![
            NoticeModel { level: Level::Warning, text: flake_differs_notice(existing_path) },
            NoticeModel {
                level: Level::Warning,
                text: "Differences detected in flake configuration."@,
            },
            NoticeModel {
                level: Level::Info,
                text: "Consider reviewing the changes and updating your flake.nix if needed."@,
            },
            NoticeModel { level: Level::Info, text: flake_available_notice(generated_path) },
        ],
    }
}

fn push_notice(notices: &mut Vec<Notice>, level: Level, text: String)
    ensures
        final(notices).deep_view() == old(notices).deep_view().push(
            NoticeModel { level, text: text@ },
        ),
{
    let ghost before = notices.deep_view();
    notices.push(Notice { level, text });
    assert(notices.deep_view() =~= before.push(NoticeModel { level, text: text@ }));
}

/// Holds the generated description against the copy in place, if there is
/// one, and says what the user is to be told.
pub fn check_flake_changes(
    generated_path: &str,
    existing_path: &str,
    existing: &Option<String>,
    generated_content: &str,
) -> (r: Vec<Notice>)
    ensures
        r.deep_view() == flake_change_notices(
            generated_path@,
            existing_path@,
            drift_of(existing.deep_view(), generated_content@),
        ),
{
    let mut notices: Vec<Notice> = Vec::new();
    assert(notices.deep_view() =~= Seq::<NoticeModel>::empty());
    match drift(existing, generated_content) {
        Drift::Absent => {
            push_notice(
                &mut notices,
                Level::Success,
                text3("No existing flake.nix found at ", existing_path, ", using generated one."),
            );
        },
        Drift::Matches => {
            push_notice(
                &mut notices,
                Level::Success,
                String::from_str("Generated flake.nix matches existing configuration."),
            );
        },
        Drift::Differs => {
            let mut first = String::from_str("Generated flake.nix differs from existing ");
            first.append(existing_path);
            push_notice(&mut notices, Level::Warning, first);
            push_notice(
                &mut notices,
                Level::Warning,
                String::from_str("Differences detected in flake configuration."),
            );
            push_notice(
                &mut notices,
                Level::Info,
                String::from_str(
                    "Consider reviewing the changes and updating your flake.nix if needed.",
                ),
            );
            let mut last = String::from_str("Generated flake.nix is available at: ");
            last.append(generated_path);
            push_notice(&mut notices, Level::Info, last);
        },
    }
    assert(notices.deep_view() =~= flake_change_notices(
        generated_path@,
        existing_path@,
        drift_of(existing.deep_view(), generated_content@),
    ));
    notices
}

/// What is to become of the description that was just generated.
#[derive(Clone, Copy, PartialEq, Eq, Structural, Debug)]
pub enum Install {
    /// It takes the place of the copy in place, or the empty place.
    Replace,
    /// It is thrown away: the copy in place says the same, and stays
    /// untouched.
    Discard,
}

/// The copy in place is only replaced where the content differs, or where
/// there is none.
pub open spec fn install_of(drift: Drift) -> Install {
    if drift == Drift::Matches {
        Install::Discard
    } else {
        Install::Replace
    }
}

pub open spec fn using_existing_message(existing_path: Seq<char>) -> Seq<char> {
    "Using existing flake.nix at "@ + existing_path
}

/// The notice of a change: it names the copy that was replaced and the
/// file that the new content came from.
pub open spec fn updated_message(existing_path: Seq<char>, generated_path: Seq<char>) -> Seq<char> {
    "Updated flake.nix at "@ + existing_path + " from "@ + generated_path
}

/// What the log says of the decision.
pub open spec fn install_message(
    generated_path: Seq<char>,
    existing_path: Seq<char>,
    install: Install,
) -> Seq<char> {
    match install {
        Install::Discard => using_existing_message(existing_path),
        Install::Replace => updated_message(existing_path, generated_path),
    }
}

/// Decides what becomes of the description that was generated into
/// `generated_path`, given the content of the copy at `existing_path`, if
/// there is one; returns the decision and the message for the log.
pub fn reconcile_descriptor(
    generated_path: &str,
    existing_path: &str,
    existing: &Option<String>,
    generated_content: &str,
) -> (r: (Install, String))
    ensures
        r.0 == install_of(drift_of(existing.deep_view(), generated_content@)),
        r.0 == Install::Discard <==> (existing.deep_view() matches Some(text) && normalized(text)
            == normalized(generated_content@)),
        r.1@ == install_message(generated_path@, existing_path@, r.0),
{
    match drift(existing, generated_content) {
        Drift::Matches => {
            let mut m = String::from_str("Using existing flake.nix at ");
            m.append(existing_path);
            (Install::Discard, m)
        },
        _ => {
            let mut m = text3("Updated flake.nix at ", existing_path, " from ");
            m.append(generated_path);
            (Install::Replace, m)
        },
    }
}

pub open spec fn lock_differs_notice(existing_path: Seq<char>) -> Seq<char> {
    "Generated flake.lock differs from existing "@ + existing_path
}

/// What the user is told of the lock file after it was generated anew:
/// nothing unless it was there before and is there now.
pub open spec fn lock_change_notices(
    existing_path: Seq<char>,
    before: Option<Seq<char>>,
    after: Option<Seq<char>>,
) -> Seq<NoticeModel> {
    match (before, after) {
        (Some(old_text), Some(new_text)) => if texts_differ(old_text, new_text) {
            seq![
                NoticeModel { level: Level::Warning, text: lock_differs_notice(existing_path) },
                NoticeModel { level: Level::Warning, text: "Lock file changes detected."@ },
                NoticeModel {
                    level: Level::Info,
                    text: "This might indicate dependency updates or changes in flake inputs."@,
                },
                NoticeModel { level: Level::Info, text: "Consider reviewing the lock file changes."@ },
            ]
        } else {
            seq![NoticeModel { level: Level::Success, text: "flake.lock is up to date."@ }]
        },
        _ => Seq::empty(),
    }
}

/// Holds the lock file as it was before the build engine generated it anew
/// against what it is now, and says what the user is to be told.
pub fn check_lock_changes(existing_path: &str, before: &Option<String>, after: &Option<String>) -> (r:
    Vec<Notice>)
    ensures
        r.deep_view() == lock_change_notices(
            existing_path@,
            before.deep_view(),
            after.deep_view(),
        ),
{
    let mut notices: Vec<Notice> = Vec::new();
    assert(notices.deep_view() =~= Seq::<NoticeModel>::empty());
    match (before, after) {
        (Some(old_text), Some(new_text)) => {
            if files_differ(old_text.as_str(), new_text.as_str()) {
                let mut first = String::from_str("Generated flake.lock differs from existing ");
                first.append(existing_path);
                push_notice(&mut notices, Level::Warning, first);
                push_notice(
                    &mut notices,
                    Level::Warning,
                    String::from_str("Lock file changes detected."),
                );
                push_notice(
                    &mut notices,
                    Level::Info,
                    String::from_str(
                        "This might indicate dependency updates or changes in flake inputs.",
                    ),
                );
                push_notice(
                    &mut notices,
                    Level::Info,
                    String::from_str("Consider reviewing the lock file changes."),
                );
            } else {
                push_notice(
                    &mut notices,
                    Level::Success,
                    String::from_str("flake.lock is up to date."),
                );
            }
        },
        _ => {},
    }
    assert(notices.deep_view() =~= lock_change_notices(
        existing_path@,
        before.deep_view(),
        after.deep_view(),
    ));
    notices
}

/// What the metadata directory's `.gitignore` holds: the session logs are
/// kept out of version control.
pub const GITIGNORE_CONTENT: &'static str = "# Ignore log files and directories\nlogs/\n*.log\n";

/// The template of the build description. It writes variables, loops over
/// the extra inputs and tests two texts; it calls no function and no
/// filter, computes nothing and includes nothing.
pub const FLAKE_TEMPLATE: &'static str = r#"{
  description = "Reproducible build of {{ package_name }} {{ package_version }}";

  inputs = {
    nixpkgs.url = "{{ nixpkgs_url }}";
    rust-overlay = {
      url = "github:oxalica/rust-overlay";
      inputs.nixpkgs.follows = "nixpkgs";
    };
    crane.url = "github:ipetkov/crane";
{%- for input in extra_inputs %}
    {{ input.name }}.url = "{{ input.url }}";
{%- endfor %}
  };

  outputs = inputs@{ self, nixpkgs, rust-overlay, crane, ... }:
    let
      hostSystems = [ "x86_64-linux" "aarch64-linux" ];
      forEachHost = f: nixpkgs.lib.genAttrs hostSystems f;

      # Each target: the cross configuration that nixpkgs takes, and the
      # triple that the Rust toolchain calls it by.
      targets = {
        "x86_64-linux-gnu" = { config = "x86_64-unknown-linux-gnu"; rust = "x86_64-unknown-linux-gnu"; static = false; };
        "aarch64-linux-gnu" = { config = "aarch64-unknown-linux-gnu"; rust = "aarch64-unknown-linux-gnu"; static = false; };
        "x86_64-linux-musl" = { config = "x86_64-unknown-linux-musl"; rust = "x86_64-unknown-linux-musl"; static = true; };
        "aarch64-linux-musl" = { config = "aarch64-unknown-linux-musl"; rust = "aarch64-unknown-linux-musl"; static = true; };
        "x86_64-w64-mingw32" = { config = "x86_64-w64-mingw32"; rust = "x86_64-pc-windows-gnu"; static = false; };
        "x86_64-pc-windows-msvc" = { config = "x86_64-pc-windows-msvc"; rust = "x86_64-pc-windows-msvc"; static = false; };
        "aarch64-w64-mingw32" = { config = "aarch64-w64-mingw32"; rust = "aarch64-pc-windows-gnullvm"; static = false; };
        "x86_64-apple-darwin" = { config = "x86_64-apple-darwin"; rust = "x86_64-apple-darwin"; static = false; };
        "aarch64-apple-darwin" = { config = "aarch64-apple-darwin"; rust = "aarch64-apple-darwin"; static = false; };
      };

      overlays = [
        (import rust-overlay)
{%- if musl_version %}
        (final: prev: {
          musl = prev.musl.overrideAttrs (old: rec {
            version = "{{ musl_version }}";
            src = prev.fetchurl {
              url = "https://musl.libc.org/releases/musl-${version}.tar.gz";
              hash = prev.lib.fakeHash;
            };
          });
        })
{%- endif %}
      ];

      buildFor = system: name: target:
        let
          pkgs = import nixpkgs {
            inherit system overlays;
            crossSystem = { config = target.config; isStatic = target.static; };
          };
          toolchain = p: p.rust-bin.{{ rust_channel }}.{% if rust_version == "latest" %}latest{% else %}"{{ rust_version }}"{% endif %}.minimal.override {
            targets = [ target.rust ];
          };
          craneLib = (crane.mkLib pkgs).overrideToolchain toolchain;
        in
        craneLib.buildPackage {
          pname = "{{ package_name }}";
          version = "{{ package_version }}";
          src = craneLib.cleanCargoSource ../.;
          strictDeps = true;
          doCheck = false;
          CARGO_BUILD_TARGET = target.rust;
          SOURCE_DATE_EPOCH = "0";
          nativeBuildInputs = [
{%- for input in extra_inputs %}
            inputs.{{ input.name }}.packages.${system}.default
{%- endfor %}
          ];
        };
    in
    {
      packages = forEachHost (system:
        nixpkgs.lib.mapAttrs (buildFor system) targets);
    };
}
"#;

} // verus!
