//! What is logged of a run, where and how often, as the input document
//! describes it.

use crate::error::ConfigError;
use crate::io::input::document_entry;
use crate::io::input::documents_of;
use crate::io::input::entry;
use crate::io::input::items;
use crate::io::input::leaf;
use crate::io::input::same_text;
use crate::io::input::yaml_document;
use crate::io::input::Document;
use crate::io::input::Leaf;
use vstd::prelude::*;
use yaml_rust::Yaml;

verus! {

/// The number of digits after the point, where the document gives none.
pub const DEFAULT_PRECISION: usize = 3;

/// The texts of a list of strings.
pub open spec fn texts(strings: Seq<String>) -> Seq<Seq<char>> {
    strings.map_values(|string: String| string@)
}

/// The words of a text: its parts between white space.
pub uninterp spec fn words_of(text: Seq<char>) -> Seq<Seq<char>>;

/// `str::split_whitespace`: the parts of a text between white space, in
/// their order, which depend on the text alone.
#[verifier::external_body]
fn words(text: &str) -> (r: Vec<String>)
    ensures
        texts(r@) == words_of(text@),
{
    text.split_whitespace().map(|word| word.to_string()).collect()
}

/// The label that heads the column of a field; none for a name that is no
/// field.
pub open spec fn header_label(field_name: Seq<char>) -> Option<Seq<char>> {
    if field_name == "step"@ {
        Some("Step"@)
    } else if field_name == "name"@ {
        Some("Name"@)
    } else if field_name == "time"@ {
        Some("Time"@)
    } else if field_name == "id"@ {
        Some("ID"@)
    } else if field_name == "x"@ {
        Some("X"@)
    } else if field_name == "y"@ {
        Some("Y"@)
    } else if field_name == "z"@ {
        Some("Z"@)
    } else if field_name == "type"@ {
        Some("Type"@)
    } else if field_name == "vx"@ {
        Some("Vx"@)
    } else if field_name == "vy"@ {
        Some("Vy"@)
    } else if field_name == "vz"@ {
        Some("Vz"@)
    } else if field_name == "fx"@ {
        Some("Fx"@)
    } else if field_name == "fy"@ {
        Some("Fy"@)
    } else if field_name == "fz"@ {
        Some("Fz"@)
    } else if field_name == "mass"@ {
        Some("Mass"@)
    } else if field_name == "charge"@ {
        Some("Charge"@)
    } else if field_name == "potential_energy"@ {
        Some("PotEn"@)
    } else if field_name == "kinetic_energy"@ {
        Some("KinEn"@)
    } else if field_name == "total_energy"@ {
        Some("TotEn"@)
    } else if field_name == "temperature"@ {
        Some("Temp"@)
    } else {
        None
    }
}

/// The label that heads the column of a field.
pub fn get_header_label(field_name: &str) -> (r: Option<&'static str>)
    ensures
        match r {
            Some(label) => header_label(field_name@) == Some(label@),
            None => header_label(field_name@) is None,
        },
{
    if same_text(field_name, "step") {
        Some("Step")
    } else if same_text(field_name, "name") {
        Some("Name")
    } else if same_text(field_name, "time") {
        Some("Time")
    } else if same_text(field_name, "id") {
        Some("ID")
    } else if same_text(field_name, "x") {
        Some("X")
    } else if same_text(field_name, "y") {
        Some("Y")
    } else if same_text(field_name, "z") {
        Some("Z")
    } else if same_text(field_name, "type") {
        Some("Type")
    } else if same_text(field_name, "vx") {
        Some("Vx")
    } else if same_text(field_name, "vy") {
        Some("Vy")
    } else if same_text(field_name, "vz") {
        Some("Vz")
    } else if same_text(field_name, "fx") {
        Some("Fx")
    } else if same_text(field_name, "fy") {
        Some("Fy")
    } else if same_text(field_name, "fz") {
        Some("Fz")
    } else if same_text(field_name, "mass") {
        Some("Mass")
    } else if same_text(field_name, "charge") {
        Some("Charge")
    } else if same_text(field_name, "potential_energy") {
        Some("PotEn")
    } else if same_text(field_name, "kinetic_energy") {
        Some("KinEn")
    } else if same_text(field_name, "total_energy") {
        Some("TotEn")
    } else if same_text(field_name, "temperature") {
        Some("Temp")
    } else {
        None
    }
}

/// The fields of a section of a kind, where the document names none. They
/// are the words of one line per kind.
pub open spec fn default_format(section_type: Seq<char>) -> Option<Seq<char>> {
    if section_type == "thermodynamics"@ {
        Some("step temperature potential_energy kinetic_energy total_energy"@)
    } else if section_type == "neighbors"@ {
        Some("id type x y z"@)
    } else if section_type == "atoms"@ {
        Some(
            "id type x y z vx vy vz fx fy fz mass charge potential_energy kinetic_energy total_energy"@,
        )
    } else if section_type == "xyz"@ {
        Some("name x y z"@)
    } else {
        None
    }
}

/// The line of default fields of a section of a kind.
pub fn default_format_line(section_type: &str) -> (r: Option<&'static str>)
    ensures
        match r {
            Some(line) => default_format(section_type@) == Some(line@),
            None => default_format(section_type@) is None,
        },
{
    if same_text(section_type, "thermodynamics") {
        Some("step temperature potential_energy kinetic_energy total_energy")
    } else if same_text(section_type, "neighbors") {
        Some("id type x y z")
    } else if same_text(section_type, "atoms") {
        Some(
            "id type x y z vx vy vz fx fy fz mass charge potential_energy kinetic_energy total_energy",
        )
    } else if same_text(section_type, "xyz") {
        Some("name x y z")
    } else {
        None
    }
}

/// The text that a node holds, if it holds one.
pub open spec fn text_of(document: Document) -> Option<Seq<char>> {
    match document {
        Document::Text(text) => Some(text),
        _ => None,
    }
}

/// The fields that a list names, if each of its elements is a string.
pub open spec fn listed_fields(elements: Seq<Document>) -> Option<Seq<Seq<char>>> {
    if forall|k: int| 0 <= k < elements.len() ==> text_of(#[trigger] elements[k]) is Some {
        Some(elements.map_values(|element: Document| text_of(element).unwrap()))
    } else {
        None
    }
}

/// The fields of a section of a kind: those that its entry `format` lists,
/// or the words of that entry where it is a string, or else the default
/// fields of the kind. Fails with `Malformed` where a listed field is no
/// string, and with `UnknownSection` where the default fields are called
/// for and the kind has none.
pub open spec fn format_of(section: Document, section_type: Seq<char>) -> Result<
    Seq<Seq<char>>,
    ConfigError,
> {
    match document_entry(section, "format"@) {
        Document::Array(elements) => match listed_fields(elements) {
            Some(fields) => Ok(fields),
            None => Err(ConfigError::Malformed),
        },
        Document::Text(line) => Ok(words_of(line)),
        _ => match default_format(section_type) {
            Some(line) => Ok(words_of(line)),
            None => Err(ConfigError::UnknownSection),
        },
    }
}

/// Reads the fields of a section of a kind.
pub fn construct_format(section_yaml: &Yaml, section_type: &str) -> (r: Result<
    Vec<String>,
    ConfigError,
>)
    ensures
        match r {
            Ok(fields) => format_of(yaml_document(*section_yaml), section_type@) == Ok::<
                Seq<Seq<char>>,
                ConfigError,
            >(texts(fields@)),
            Err(e) => format_of(yaml_document(*section_yaml), section_type@) == Err::<
                Seq<Seq<char>>,
                ConfigError,
            >(e),
        },
{
    let format = entry(section_yaml, "format");
    match leaf(format) {
        Leaf::Array => {
            let nodes = match items(format) {
                Some(nodes) => nodes,
                None => {
                    return Err(ConfigError::Malformed);
                },
            };
            let ghost elements = documents_of(nodes@);
            let mut fields: Vec<String> = Vec::new();
            let mut k: usize = 0;
            while k < nodes.len()
                invariant
                    k <= nodes.len(),
                    fields.len() == k,
                    elements == documents_of(nodes@),
                    document_entry(yaml_document(*section_yaml), "format"@) == Document::Array(
                        elements,
                    ),
                    forall|j: int| 0 <= j < k ==> text_of(#[trigger] elements[j]) == Some(fields[j]@),
                decreases nodes.len() - k,
            {
                match leaf(&nodes[k]) {
                    Leaf::Text(field) => {
                        fields.push(field);
                    },
                    _ => {
                        assert(text_of(elements[k as int]) is None);
                        return Err(ConfigError::Malformed);
                    },
                }
                k += 1;
            }
            assert(texts(fields@) =~= listed_fields(elements).unwrap());
            Ok(fields)
        },
        Leaf::Text(line) => Ok(words(line.as_str())),
        _ => match default_format_line(section_type) {
            Some(line) => Ok(words(line)),
            None => Err(ConfigError::UnknownSection),
        },
    }
}

/// A part of a log: a kind of section and the fields that are written of it.
#[derive(Clone, Debug, PartialEq, Eq)]
pub struct Section {
    pub name: String,
    pub fields: Vec<String>,
}

/// A section, by its texts.
pub struct SectionModel {
    pub name: Seq<char>,
    pub fields: Seq<Seq<char>>,
}

impl View for Section {
    type V = SectionModel;

    open spec fn view(&self) -> SectionModel {
        SectionModel { name: self.name@, fields: texts(self.fields@) }
    }
}

/// The sections of a list, by their texts.
pub open spec fn section_models(sections: Seq<Section>) -> Seq<SectionModel> {
    sections.map_values(|section: Section| section@)
}

/// The place of the first section with a name, from a place on.
pub open spec fn section_place(sections: Seq<SectionModel>, name: Seq<char>, from: nat) -> Option<
    nat,
>
    decreases sections.len() - from,
{
    if from >= sections.len() {
        None
    } else if sections[from as int].name == name {
        Some(from)
    } else {
        section_place(sections, name, from + 1)
    }
}

/// The sections with one more: it takes the place of the section of its
/// name, or comes last where there is none of its name.
pub open spec fn with_section(sections: Seq<SectionModel>, section: SectionModel) -> Seq<
    SectionModel,
> {
    match section_place(sections, section.name, 0) {
        Some(place) => sections.update(place as int, section),
        None => sections.push(section),
    }
}

/// No two sections have the same name.
pub open spec fn names_differ(sections: Seq<SectionModel>) -> bool {
    forall|i: int, j: int|
        0 <= i < j < sections.len() ==> (#[trigger] sections[i]).name != (
        #[trigger] sections[j]).name
}

/// Where the first section with a name stands there is a section with that
/// name, and none before it; where none stands, no section has the name.
pub proof fn lemma_section_place(sections: Seq<SectionModel>, name: Seq<char>, from: nat)
    ensures
        match section_place(sections, name, from) {
            Some(place) => from <= place < sections.len() && sections[place as int].name == name
                && forall|k: int| from <= k < place ==> (#[trigger] sections[k]).name != name,
            None => forall|k: int| from <= k < sections.len() ==> (#[trigger] sections[k]).name
                != name,
        },
    decreases sections.len() - from,
{
    if from < sections.len() && sections[from as int].name != name {
        lemma_section_place(sections, name, from + 1);
    }
}

/// Sections with different names still have different names when one more
/// is put among them.
pub proof fn lemma_with_section_names_differ(sections: Seq<SectionModel>, section: SectionModel)
    requires
        names_differ(sections),
    ensures
        names_differ(with_section(sections, section)),
{
    lemma_section_place(sections, section.name, 0);
}

/// Puts a section among the others: in the place of the one of its name, or
/// last.
pub fn insert_section(sections: &mut Vec<Section>, section: Section)
    ensures
        section_models(final(sections)@) == with_section(section_models(old(sections)@), section@),
{
    let ghost before = section_models(sections@);
    let mut k: usize = 0;
    while k < sections.len()
        invariant
            k <= sections.len(),
            sections@ == old(sections)@,
            before == section_models(sections@),
            section_place(before, section@.name, 0) == section_place(before, section@.name, k as nat),
        decreases sections.len() - k,
    {
        assert(before[k as int] == sections@[k as int]@);
        if same_text(sections[k].name.as_str(), section.name.as_str()) {
            let ghost model = section@;
            sections[k] = section;
            assert(section_models(sections@) =~= before.update(k as int, model));
            return ;
        }
        k += 1;
    }
    let ghost model = section@;
    sections.push(section);
    assert(section_models(sections@) =~= before.push(model));
}

/// Where a log goes.
#[derive(Clone, Copy, Debug, PartialEq, Eq, Structural)]
pub enum RedirectKind {
    /// To the console.
    Console,
    /// To a trajectory file, in the XYZ format.
    Xyz,
}

/// One destination of the log: the sections that are written to it, the
/// number of digits after the point, and the name of the file for a
/// trajectory.
#[derive(Clone, Debug, PartialEq, Eq)]
pub struct LogsRedirect {
    pub kind: RedirectKind,
    pub sections: Vec<Section>,
    pub precision: usize,
    pub filename: Option<String>,
}

/// A destination, by its texts.
pub struct RedirectModel {
    pub kind: RedirectKind,
    pub sections: Seq<SectionModel>,
    pub precision: usize,
    pub filename: Option<Seq<char>>,
}

impl View for LogsRedirect {
    type V = RedirectModel;

    open spec fn view(&self) -> RedirectModel {
        RedirectModel {
            kind: self.kind,
            sections: section_models(self.sections@),
            precision: self.precision,
            filename: match self.filename {
                Some(name) => Some(name@),
                None => None,
            },
        }
    }
}

/// The destinations of a list, by their texts.
pub open spec fn redirect_models(redirects: Seq<LogsRedirect>) -> Seq<RedirectModel> {
    redirects.map_values(|redirect: LogsRedirect| redirect@)
}

/// The logger: how often the state is logged, in steps, and where to.
#[derive(Clone, Debug, PartialEq, Eq)]
pub struct SimulationLogger {
    pub frequency: u64,
    pub redirects: Vec<LogsRedirect>,
    pub precision: usize,
}

/// A logger, by its texts.
pub struct LoggerModel {
    pub frequency: u64,
    pub redirects: Seq<RedirectModel>,
    pub precision: usize,
}

impl View for SimulationLogger {
    type V = LoggerModel;

    open spec fn view(&self) -> LoggerModel {
        LoggerModel {
            frequency: self.frequency,
            redirects: redirect_models(self.redirects@),
            precision: self.precision,
        }
    }
}

/// A destination is sound if no two of its sections have the same name, and
/// it has the name of a file exactly if it is a trajectory.
pub open spec fn redirect_is_sound(redirect: RedirectModel) -> bool {
    &&& names_differ(redirect.sections)
    &&& redirect.kind is Xyz <==> redirect.filename is Some
}

/// The section that a node describes: its entry `type` names the kind, and
/// the fields are those of its format.
pub open spec fn section_of(definition: Document) -> Result<SectionModel, ConfigError> {
    match text_of(document_entry(definition, "type"@)) {
        Some(name) => match format_of(definition, name) {
            Ok(fields) => Ok(SectionModel { name, fields }),
            Err(e) => Err(e),
        },
        None => Err(ConfigError::Malformed),
    }
}

/// The sections that the first `upto` nodes of a list describe. A later
/// section takes the place of an earlier one of the same kind.
pub open spec fn sections_before(definitions: Seq<Document>, upto: nat) -> Result<
    Seq<SectionModel>,
    ConfigError,
>
    decreases upto,
{
    if upto == 0 {
        Ok(Seq::empty())
    } else {
        match sections_before(definitions, (upto - 1) as nat) {
            Ok(sections) => match section_of(definitions[upto - 1]) {
                Ok(section) => Ok(with_section(sections, section)),
                Err(e) => Err(e),
            },
            Err(e) => Err(e),
        }
    }
}

/// The sections that a node describes: those of its elements where it is a
/// list, and none where it is not.
pub open spec fn sections_of(document: Document) -> Result<Seq<SectionModel>, ConfigError> {
    match document {
        Document::Array(definitions) => sections_before(definitions, definitions.len()),
        _ => Ok(Seq::empty()),
    }
}

/// The precision that a node holds: a whole number that is not negative and
/// can be counted to; else the default.
pub open spec fn precision_of(document: Document) -> usize {
    match document {
        Document::Integer(value) => if 0 <= value && value <= usize::MAX {
            value as usize
        } else {
            DEFAULT_PRECISION
        },
        _ => DEFAULT_PRECISION,
    }
}

/// The section of a trajectory: name and position of every atom.
pub open spec fn trajectory_section() -> SectionModel {
    SectionModel { name: "xyz"@, fields: seq!["name"@, "x"@, "y"@, "z"@] }
}

/// The destination that a node describes, if it describes one. Its entry
/// `type` names the kind: `console`, with the sections of its entry
/// `sections`, or `xyz`, with the file of its entry `filename`. A node of
/// another kind, or without one, describes none. Fails where a section is
/// faulty, and with `Malformed` where a trajectory has no file name.
pub open spec fn redirect_of(definition: Document) -> Result<Option<RedirectModel>, ConfigError> {
    let precision = precision_of(document_entry(definition, "precision"@));
    match text_of(document_entry(definition, "type"@)) {
        Some(kind) => if kind == "console"@ {
            match sections_of(document_entry(definition, "sections"@)) {
                Ok(sections) => Ok(
                    Some(
                        RedirectModel {
                            kind: RedirectKind::Console,
                            sections,
                            precision,
                            filename: None,
                        },
                    ),
                ),
                Err(e) => Err(e),
            }
        } else if kind == "xyz"@ {
            match text_of(document_entry(definition, "filename"@)) {
                Some(filename) => Ok(
                    Some(
                        RedirectModel {
                            kind: RedirectKind::Xyz,
                            sections: seq![trajectory_section()],
                            precision,
                            filename: Some(filename),
                        },
                    ),
                ),
                None => Err(ConfigError::Malformed),
            }
        } else {
            Ok(None)
        },
        None => Ok(None),
    }
}

/// The destinations that the first `upto` nodes of a list describe, in
/// their order.
pub open spec fn redirects_before(definitions: Seq<Document>, upto: nat) -> Result<
    Seq<RedirectModel>,
    ConfigError,
>
    decreases upto,
{
    if upto == 0 {
        Ok(Seq::empty())
    } else {
        match redirects_before(definitions, (upto - 1) as nat) {
            Ok(redirects) => match redirect_of(definitions[upto - 1]) {
                Ok(Some(redirect)) => Ok(redirects.push(redirect)),
                Ok(None) => Ok(redirects),
                Err(e) => Err(e),
            },
            Err(e) => Err(e),
        }
    }
}

/// The destination of a logger that is given none: the console, with the
/// thermodynamic quantities of every step.
pub open spec fn default_redirect() -> RedirectModel {
    RedirectModel {
        kind: RedirectKind::Console,
        sections: seq![
            SectionModel {
                name: "thermodynamics"@,
                fields: seq![
                    "step"@,
                    "temperature"@,
                    "potential_energy"@,
                    "kinetic_energy"@,
                    "total_energy"@,
                ],
            },
        ],
        precision: DEFAULT_PRECISION,
        filename: None,
    }
}

/// The logger that is used where the document describes none: it logs
/// every step to the default destination.
pub open spec fn default_logger() -> LoggerModel {
    LoggerModel { frequency: 1, redirects: seq![default_redirect()], precision: DEFAULT_PRECISION }
}

/// The frequency that a node describes: one where the node is absent, else
/// a whole number of at least one.
pub open spec fn log_frequency_of(document: Document) -> Option<u64> {
    match document {
        Document::BadValue => Some(1),
        Document::Integer(value) => if value > 0 {
            Some(value as u64)
        } else {
            None
        },
        _ => None,
    }
}

/// The logger that a node describes. Its frequency must be a whole number
/// of at least one, where there is one. Its destinations are those of its
/// entry `redirects` where that is a list, else the default destination.
pub open spec fn logger_of(document: Document) -> Result<LoggerModel, ConfigError> {
    match log_frequency_of(document_entry(document, "frequency"@)) {
        Some(frequency) => {
            let redirects = match document_entry(document, "redirects"@) {
                Document::Array(definitions) => redirects_before(definitions, definitions.len()),
                _ => Ok(seq![default_redirect()]),
            };
            match redirects {
                Ok(redirects) => Ok(
                    LoggerModel {
                        frequency,
                        redirects,
                        precision: precision_of(document_entry(document, "precision"@)),
                    },
                ),
                Err(e) => Err(e),
            }
        },
        None => Err(ConfigError::UnknownFrequency),
    }
}

/// The logger of a script: the one that its entry `logger` describes, or the
/// default logger where there is no such entry.
pub open spec fn script_logger(script: Document) -> Result<LoggerModel, ConfigError> {
    if document_entry(script, "logger"@) is BadValue {
        Ok(default_logger())
    } else {
        logger_of(document_entry(script, "logger"@))
    }
}

/// Whether the state is logged at a step: at the first step, and at every
/// step that the frequency divides.
pub open spec fn log_is_due(frequency: u64, current_step: u64) -> bool {
    current_step == 1 || (frequency != 0 && current_step % frequency == 0)
}

/// The sections that a list describes have different names.
pub proof fn lemma_sections_names_differ(definitions: Seq<Document>, upto: nat)
    requires
        sections_before(definitions, upto) is Ok,
    ensures
        names_differ(sections_before(definitions, upto).unwrap()),
    decreases upto,
{
    if upto > 0 {
        lemma_sections_names_differ(definitions, (upto - 1) as nat);
        lemma_with_section_names_differ(
            sections_before(definitions, (upto - 1) as nat).unwrap(),
            section_of(definitions[upto - 1]).unwrap(),
        );
    }
}

/// A destination that a node describes is sound.
pub proof fn lemma_redirect_is_sound(definition: Document)
    requires
        redirect_of(definition) is Ok,
        redirect_of(definition).unwrap() is Some,
    ensures
        redirect_is_sound(redirect_of(definition).unwrap().unwrap()),
{
    match document_entry(definition, "sections"@) {
        Document::Array(definitions) => {
            if sections_before(definitions, definitions.len()) is Ok {
                lemma_sections_names_differ(definitions, definitions.len());
            }
        },
        _ => {},
    }
}

/// The destinations that a list describes are sound.
pub proof fn lemma_redirects_are_sound(definitions: Seq<Document>, upto: nat)
    requires
        redirects_before(definitions, upto) is Ok,
    ensures
        forall|k: int|
            0 <= k < redirects_before(definitions, upto).unwrap().len() ==> redirect_is_sound(
                #[trigger] redirects_before(definitions, upto).unwrap()[k],
            ),
    decreases upto,
{
    if upto > 0 {
        lemma_redirects_are_sound(definitions, (upto - 1) as nat);
        if redirect_of(definitions[upto - 1]).unwrap() is Some {
            lemma_redirect_is_sound(definitions[upto - 1]);
        }
    }
}

/// The logger that a node describes logs every so many steps, at least
/// every step, and its destinations are sound.
pub proof fn lemma_logger_is_sound(document: Document)
    requires
        logger_of(document) is Ok,
    ensures
        logger_of(document).unwrap().frequency >= 1,
        forall|k: int|
            0 <= k < logger_of(document).unwrap().redirects.len() ==> redirect_is_sound(
                #[trigger] logger_of(document).unwrap().redirects[k],
            ),
{
    match document_entry(document, "redirects"@) {
        Document::Array(definitions) => {
            lemma_redirects_are_sound(definitions, definitions.len());
        },
        _ => {},
    }
}

/// Reads a precision.
fn precision_from(node: &Yaml) -> (r: usize)
    ensures
        r == precision_of(yaml_document(*node)),
{
    match leaf(node) {
        Leaf::Integer(value) => {
            if value >= 0 && value as u64 <= usize::MAX as u64 {
                value as usize
            } else {
                DEFAULT_PRECISION
            }
        },
        _ => DEFAULT_PRECISION,
    }
}

/// Reads one section.
fn construct_section(definition: &Yaml) -> (r: Result<Section, ConfigError>)
    ensures
        match r {
            Ok(section) => section_of(yaml_document(*definition)) == Ok::<
                SectionModel,
                ConfigError,
            >(section@),
            Err(e) => section_of(yaml_document(*definition)) == Err::<SectionModel, ConfigError>(e),
        },
{
    match leaf(entry(definition, "type")) {
        Leaf::Text(name) => match construct_format(definition, name.as_str()) {
            Ok(fields) => Ok(Section { name, fields }),
            Err(e) => Err(e),
        },
        _ => Err(ConfigError::Malformed),
    }
}

/// Reads the sections of a destination.
fn construct_sections(node: &Yaml) -> (r: Result<Vec<Section>, ConfigError>)
    ensures
        match r {
            Ok(sections) => sections_of(yaml_document(*node)) == Ok::<
                Seq<SectionModel>,
                ConfigError,
            >(section_models(sections@)),
            Err(e) => sections_of(yaml_document(*node)) == Err::<Seq<SectionModel>, ConfigError>(e),
        },
{
    let mut sections: Vec<Section> = Vec::new();
    let nodes = match items(node) {
        Some(nodes) => nodes,
        None => {
            assert(section_models(sections@) =~= Seq::empty());
            return Ok(sections);
        },
    };
    let ghost definitions = documents_of(nodes@);
    let mut k: usize = 0;
    assert(section_models(sections@) =~= Seq::empty());
    while k < nodes.len()
        invariant
            k <= nodes.len(),
            definitions == documents_of(nodes@),
            yaml_document(*node) == Document::Array(definitions),
            sections_before(definitions, k as nat) == Ok::<Seq<SectionModel>, ConfigError>(
                section_models(sections@),
            ),
        decreases nodes.len() - k,
    {
        assert(definitions[k as int] == yaml_document(nodes@[k as int]));
        match construct_section(&nodes[k]) {
            Ok(section) => {
                insert_section(&mut sections, section);
            },
            Err(e) => {
                proof {
                    assert(sections_before(definitions, (k + 1) as nat) == Err::<
                        Seq<SectionModel>,
                        ConfigError,
                    >(e));
                    lemma_sections_fault_stays(definitions, (k + 1) as nat, definitions.len());
                }
                return Err(e);
            },
        }
        k += 1;
    }
    Ok(sections)
}

/// A fault among the first sections of a list is a fault of the list.
proof fn lemma_sections_fault_stays(definitions: Seq<Document>, upto: nat, end: nat)
    requires
        upto <= end,
        sections_before(definitions, upto) is Err,
    ensures
        sections_before(definitions, end) == sections_before(definitions, upto),
    decreases end,
{
    if upto < end {
        lemma_sections_fault_stays(definitions, upto, (end - 1) as nat);
    }
}

/// A fault among the first destinations of a list is a fault of the list.
proof fn lemma_redirects_fault_stays(definitions: Seq<Document>, upto: nat, end: nat)
    requires
        upto <= end,
        redirects_before(definitions, upto) is Err,
    ensures
        redirects_before(definitions, end) == redirects_before(definitions, upto),
    decreases end,
{
    if upto < end {
        lemma_redirects_fault_stays(definitions, upto, (end - 1) as nat);
    }
}

/// The section of a trajectory.
fn construct_trajectory_section() -> (section: Section)
    ensures
        section@ == trajectory_section(),
{
    let mut fields: Vec<String> = Vec::new();
    fields.push("name".to_owned());
    fields.push("x".to_owned());
    fields.push("y".to_owned());
    fields.push("z".to_owned());
    assert(texts(fields@) =~= seq!["name"@, "x"@, "y"@, "z"@]);
    Section { name: "xyz".to_owned(), fields }
}

/// The destination of a logger that is given none.
fn construct_default_redirect() -> (redirect: LogsRedirect)
    ensures
        redirect@ == default_redirect(),
{
    let mut fields: Vec<String> = Vec::new();
    fields.push("step".to_owned());
    fields.push("temperature".to_owned());
    fields.push("potential_energy".to_owned());
    fields.push("kinetic_energy".to_owned());
    fields.push("total_energy".to_owned());
    assert(texts(fields@) =~= seq![
        "step"@,
        "temperature"@,
        "potential_energy"@,
        "kinetic_energy"@,
        "total_energy"@,
    ]);
    let mut sections: Vec<Section> = Vec::new();
    sections.push(Section { name: "thermodynamics".to_owned(), fields });
    assert(section_models(sections@) =~= default_redirect().sections);
    LogsRedirect {
        kind: RedirectKind::Console,
        sections,
        precision: DEFAULT_PRECISION,
        filename: None,
    }
}

/// Reads one destination of the log; there is none where the node names no
/// known kind.
pub fn construct_redirect(redirect_definition: &Yaml) -> (r: Result<
    Option<LogsRedirect>,
    ConfigError,
>)
    ensures
        match r {
            Ok(Some(redirect)) => redirect_of(yaml_document(*redirect_definition)) == Ok::<
                Option<RedirectModel>,
                ConfigError,
            >(Some(redirect@)),
            Ok(None) => redirect_of(yaml_document(*redirect_definition)) == Ok::<
                Option<RedirectModel>,
                ConfigError,
            >(None),
            Err(e) => redirect_of(yaml_document(*redirect_definition)) == Err::<
                Option<RedirectModel>,
                ConfigError,
            >(e),
        },
{
    let kind = match leaf(entry(redirect_definition, "type")) {
        Leaf::Text(kind) => kind,
        _ => {
            return Ok(None);
        },
    };
    if same_text(kind.as_str(), "console") {
        let sections = match construct_sections(entry(redirect_definition, "sections")) {
            Ok(sections) => sections,
            Err(e) => {
                return Err(e);
            },
        };
        let precision = precision_from(entry(redirect_definition, "precision"));
        Ok(Some(LogsRedirect { kind: RedirectKind::Console, sections, precision, filename: None }))
    } else if same_text(kind.as_str(), "xyz") {
        let filename = match leaf(entry(redirect_definition, "filename")) {
            Leaf::Text(filename) => filename,
            _ => {
                return Err(ConfigError::Malformed);
            },
        };
        let mut sections: Vec<Section> = Vec::new();
        sections.push(construct_trajectory_section());
        assert(section_models(sections@) =~= seq![trajectory_section()]);
        let precision = precision_from(entry(redirect_definition, "precision"));
        Ok(
            Some(
                LogsRedirect {
                    kind: RedirectKind::Xyz,
                    sections,
                    precision,
                    filename: Some(filename),
                },
            ),
        )
    } else {
        Ok(None)
    }
}

/// Reads the frequency of the log.
fn log_frequency_from(node: &Yaml) -> (r: Option<u64>)
    ensures
        r == log_frequency_of(yaml_document(*node)),
{
    match leaf(node) {
        Leaf::BadValue => Some(1),
        Leaf::Integer(value) => {
            if value > 0 {
                Some(value as u64)
            } else {
                None
            }
        },
        _ => None,
    }
}

impl LogsRedirect {
    /// The name of the destination's kind.
    pub fn name(&self) -> (r: &'static str)
        ensures
            r@ == (match self.kind {
                RedirectKind::Console => "console"@,
                RedirectKind::Xyz => "xyz"@,
            }),
    {
        match self.kind {
            RedirectKind::Console => "console",
            RedirectKind::Xyz => "xyz",
        }
    }
}

impl SimulationLogger {
    /// A logger is well-formed if it logs every so many steps, at least
    /// every step, and its destinations are sound.
    pub open spec fn well_formed(&self) -> bool {
        &&& self.frequency >= 1
        &&& forall|k: int|
            0 <= k < self@.redirects.len() ==> redirect_is_sound(#[trigger] self@.redirects[k])
    }

    /// Reads the logger from its node of the document.
    pub fn from(yaml: &Yaml) -> (r: Result<SimulationLogger, ConfigError>)
        ensures
            match r {
                Ok(logger) => logger_of(yaml_document(*yaml)) == Ok::<LoggerModel, ConfigError>(
                    logger@,
                ) && logger.well_formed(),
                Err(e) => logger_of(yaml_document(*yaml)) == Err::<LoggerModel, ConfigError>(e),
            },
    {
        let frequency = match log_frequency_from(entry(yaml, "frequency")) {
            Some(frequency) => frequency,
            None => {
                return Err(ConfigError::UnknownFrequency);
            },
        };
        let mut redirects: Vec<LogsRedirect> = Vec::new();
        let listed = entry(yaml, "redirects");
        match items(listed) {
            Some(nodes) => {
                let ghost definitions = documents_of(nodes@);
                let mut k: usize = 0;
                assert(redirect_models(redirects@) =~= Seq::empty());
                while k < nodes.len()
                    invariant
                        k <= nodes.len(),
                        definitions == documents_of(nodes@),
                        document_entry(yaml_document(*yaml), "redirects"@) == Document::Array(
                            definitions,
                        ),
                        log_frequency_of(document_entry(yaml_document(*yaml), "frequency"@))
                            == Some(frequency),
                        redirects_before(definitions, k as nat) == Ok::<
                            Seq<RedirectModel>,
                            ConfigError,
                        >(redirect_models(redirects@)),
                    decreases nodes.len() - k,
                {
                    assert(definitions[k as int] == yaml_document(nodes@[k as int]));
                    let ghost before = redirect_models(redirects@);
                    match construct_redirect(&nodes[k]) {
                        Ok(Some(redirect)) => {
                            let ghost model = redirect@;
                            redirects.push(redirect);
                            assert(redirect_models(redirects@) =~= before.push(model));
                        },
                        Ok(None) => {},
                        Err(e) => {
                            proof {
                                assert(redirects_before(definitions, (k + 1) as nat) == Err::<
                                    Seq<RedirectModel>,
                                    ConfigError,
                                >(e));
                                lemma_redirects_fault_stays(
                                    definitions,
                                    (k + 1) as nat,
                                    definitions.len(),
                                );
                            }
                            return Err(e);
                        },
                    }
                    k += 1;
                }
            },
            None => {
                redirects.push(construct_default_redirect());
                assert(redirect_models(redirects@) =~= seq![default_redirect()]);
            },
        }
        let precision = precision_from(entry(yaml, "precision"));
        proof {
            lemma_logger_is_sound(yaml_document(*yaml));
        }
        Ok(SimulationLogger { frequency, redirects, precision })
    }

    /// The logger that is used where the document describes none.
    pub fn default() -> (logger: SimulationLogger)
        ensures
            logger@ == default_logger(),
            logger.well_formed(),
    {
        let mut redirects: Vec<LogsRedirect> = Vec::new();
        redirects.push(construct_default_redirect());
        assert(redirect_models(redirects@) =~= seq![default_redirect()]);
        SimulationLogger { frequency: 1, redirects, precision: DEFAULT_PRECISION }
    }

    /// Reads the logger of a script from the script's document.
    pub fn of_script(script: &Yaml) -> (r: Result<SimulationLogger, ConfigError>)
        ensures
            match r {
                Ok(logger) => script_logger(yaml_document(*script)) == Ok::<
                    LoggerModel,
                    ConfigError,
                >(logger@) && logger.well_formed(),
                Err(e) => script_logger(yaml_document(*script)) == Err::<LoggerModel, ConfigError>(
                    e,
                ),
            },
    {
        match leaf(entry(script, "logger")) {
            Leaf::BadValue => Ok(SimulationLogger::default()),
            _ => SimulationLogger::from(entry(script, "logger")),
        }
    }

    /// Whether the state is logged at a step.
    pub fn is_due(&self, current_step: u64) -> (r: bool)
        ensures
            r == log_is_due(self.frequency, current_step),
    {
        current_step == 1 || (self.frequency != 0 && current_step % self.frequency == 0)
    }
}

} // verus!
