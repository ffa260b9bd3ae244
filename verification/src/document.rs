//! The canonical document model and its builders: maps plain package and file
//! metadata into the entities of the SBOM schema, filling schema-mandatory
//! fields that cannot be substantiated with the literal `NOASSERTION`
//! sentinel.

use crate::checksum::calculate_checksums;
use crate::checksum::legacy_digest;
use crate::checksum::modern_digest;
use crate::checksum::Algorithm;
use crate::checksum::Checksum;
use crate::paths::spec_file_name;
use crate::paths::file_name_of;
use vstd::prelude::*;
use vstd::string::StringExecFns;

verus! {

/// A license expression as the schema carries it; the library only ever emits
/// the `NOASSERTION` sentinel expression.
#[derive(Clone, Debug)]
pub struct SpdxExpression {
    pub expression: String,
}

impl SpdxExpression {
    /// The sentinel expression for a license on which no claim is made.
    pub fn no_assertion() -> (r: Self)
        ensures
            r.expression@ == "NOASSERTION"@,
    {
        SpdxExpression { expression: "NOASSERTION".to_owned() }
    }
}

/// The category of an external package reference.
#[derive(Clone, Copy, Debug, PartialEq, Eq, Structural)]
pub enum ExternalPackageReferenceCategory {
    Security,
    PackageManager,
    PersistentID,
    Other,
}

/// One external reference of a package, at minimum the package-manager `purl`
/// locator.
#[derive(Clone, Debug)]
pub struct ExternalPackageReference {
    pub reference_category: ExternalPackageReferenceCategory,
    pub reference_type: String,
    pub reference_locator: String,
    pub reference_comment: Option<String>,
}

/// The classification of a described file.
#[derive(Clone, Copy, Debug, PartialEq, Eq, Structural)]
pub enum FileType {
    Source,
    Binary,
    Archive,
    Application,
    Audio,
    Image,
    Text,
    Video,
    Documentation,
    Spdx,
    Other,
}

/// The kind of an annotation.
#[derive(Clone, Copy, Debug, PartialEq, Eq, Structural)]
pub enum AnnotationType {
    Review,
    Other,
}

/// One annotation attached to the document.
#[derive(Clone, Debug)]
pub struct Annotation {
    pub annotator: String,
    pub annotation_date: String,
    pub annotation_type: AnnotationType,
    pub spdx_identifier_reference: Option<String>,
    pub annotation_comment: String,
}

/// The kind of a relationship between two elements.
#[derive(Clone, Copy, Debug, PartialEq, Eq, Structural)]
pub enum RelationshipType {
    Describes,
    DescribedBy,
    Contains,
    ContainedBy,
    DependsOn,
    DependencyOf,
    GeneratedFrom,
    Other,
}

/// One relationship between two elements of the document.
#[derive(Clone, Debug)]
pub struct Relationship {
    pub spdx_element_id: String,
    pub related_spdx_element: String,
    pub relationship_type: RelationshipType,
    pub comment: Option<String>,
}

/// Who and what created the document, and when.
#[derive(Clone, Debug)]
pub struct CreationInfo {
    pub license_list_version: Option<String>,
    pub creators: Vec<String>,
    pub created: String,
    pub creator_comment: Option<String>,
}

/// The document-creation-information section of the document.
#[derive(Clone, Debug)]
pub struct DocumentCreationInformation {
    pub spdx_version: String,
    pub data_license: String,
    pub spdx_identifier: String,
    pub document_name: String,
    pub spdx_document_namespace: String,
    pub creation_info: CreationInfo,
    pub document_comment: Option<String>,
}

/// One software component described by the document.
#[derive(Clone, Debug)]
pub struct PackageInformation {
    pub package_name: String,
    pub package_spdx_identifier: String,
    pub package_version: Option<String>,
    pub package_file_name: Option<String>,
    pub package_supplier: Option<String>,
    pub package_originator: Option<String>,
    pub package_download_location: String,
    pub files_analyzed: Option<bool>,
    pub package_verification_code: Option<String>,
    pub package_checksum: Vec<Checksum>,
    pub package_home_page: Option<String>,
    pub source_information: Option<String>,
    pub concluded_license: SpdxExpression,
    pub declared_license: SpdxExpression,
    pub copyright_text: String,
    pub package_summary_description: Option<String>,
    pub package_comment: Option<String>,
    pub external_reference: Vec<ExternalPackageReference>,
    pub package_attribution_text: Vec<String>,
    pub files: Vec<String>,
    pub comments_on_license: Option<String>,
    pub all_licenses_information_from_files: Vec<String>,
    pub package_detailed_description: Option<String>,
    pub annotations: Vec<Annotation>,
}

/// One artifact described by the document.
#[derive(Clone, Debug)]
pub struct FileInformation {
    pub file_name: String,
    pub file_spdx_identifier: String,
    pub file_type: Vec<FileType>,
    pub file_checksum: Vec<Checksum>,
    pub concluded_license: SpdxExpression,
    pub license_information_in_file: Vec<SpdxExpression>,
    pub comments_on_license: Option<String>,
    pub copyright_text: String,
    pub file_comment: Option<String>,
    pub file_notice: Option<String>,
    pub file_contributor: Vec<String>,
    pub file_attribution_text: Option<Vec<String>>,
}

/// The document root.
#[derive(Clone, Debug)]
pub struct Spdx {
    pub document_creation_information: DocumentCreationInformation,
    pub package_information: Vec<PackageInformation>,
    pub file_information: Vec<FileInformation>,
    pub relationships: Vec<Relationship>,
    pub annotations: Vec<Annotation>,
    pub spdx_ref_counter: i32,
}

/// The identity a version-control lookup hands the builder, as plain data.
#[derive(Clone, Debug)]
pub struct GitUser {
    pub name: String,
    pub email: Option<String>,
}

/// The package metadata a build-tool query hands the builder, as plain data.
#[derive(Clone, Debug)]
pub struct PackageMetadata {
    pub name: String,
    pub version: String,
    pub homepage: Option<String>,
}

/// The creator line naming the tool itself.
pub open spec fn spec_tool_creator() -> Seq<char> {
    "Tool: cargo-spdx 0.1.0"@
}

/// The creator line for a person, with the email in parentheses when present.
pub open spec fn spec_person_creator(name: Seq<char>, email: Option<Seq<char>>) -> Seq<char> {
    match email {
        Some(e) => "Person: "@ + name + " ("@ + e + ")"@,
        None => "Person: "@ + name,
    }
}

/// The view of an optional string.
pub open spec fn spec_opt_view(s: Option<String>) -> Option<Seq<char>> {
    match s {
        Some(v) => Some(v@),
        None => None,
    }
}

/// Relies on chrono::Utc::now and chrono::DateTime::to_rfc3339_opts: the
/// current instant in UTC; nothing is assumed of the value.
#[verifier::external_body]
fn utc_now_rfc3339() -> String {
    chrono::Utc::now().to_rfc3339_opts(chrono::SecondsFormat::Secs, true)
}

/// Identifies the creators of the document: the person the identity lookup
/// found, if any, then always the tool itself, stamped with the current UTC
/// instant. A missing identity never aborts document creation.
pub fn get_creation_info(user: &Option<GitUser>) -> (r: CreationInfo)
    ensures
        r.license_list_version is None,
        r.creator_comment is None,
        match user {
            Some(u) => r.creators@.len() == 2 && r.creators@[0]@ == spec_person_creator(
                u.name@,
                spec_opt_view(u.email),
            ) && r.creators@[1]@ == spec_tool_creator(),
            None => r.creators@.len() == 1 && r.creators@[0]@ == spec_tool_creator(),
        },
{
    let mut creators: Vec<String> = Vec::new();
    match user {
        Some(u) => {
            let mut line: String = "Person: ".to_owned();
            line.append(u.name.as_str());
            match &u.email {
                Some(e) => {
                    line.append(" (");
                    line.append(e.as_str());
                    line.append(")");
                },
                None => {},
            }
            creators.push(line);
        },
        None => {},
    }
    creators.push("Tool: cargo-spdx 0.1.0".to_owned());
    CreationInfo {
        license_list_version: None,
        creators,
        created: utc_now_rfc3339(),
        creator_comment: None,
    }
}

/// The deterministic identifier of a package: `SPDXRef-<name>-<version>`.
pub open spec fn spec_package_identifier(name: Seq<char>, version: Seq<char>) -> Seq<char> {
    "SPDXRef-"@ + name + "-"@ + version
}

/// The package-manager locator of a package: `pkg:cargo/<name>@<version>`.
pub open spec fn spec_purl(name: Seq<char>, version: Seq<char>) -> Seq<char> {
    "pkg:cargo/"@ + name + "@"@ + version
}

impl PackageInformation {
    /// Maps one package metadata record into the canonical package entity.
    /// Fields no claim can be substantiated for are the `NOASSERTION`
    /// sentinel where the schema mandates a value, and absent otherwise.
    pub fn from_metadata_package(package: &PackageMetadata) -> (r: Self)
        ensures
            r.package_name@ == package.name@,
            r.package_spdx_identifier@ == spec_package_identifier(package.name@, package.version@),
            r.package_version matches Some(v) && v@ == package.version@,
            r.package_file_name is None,
            r.package_supplier is None,
            r.package_originator is None,
            r.package_download_location@ == "NOASSERTION"@,
            r.files_analyzed is None,
            r.package_verification_code is None,
            r.package_checksum@.len() == 0,
            spec_opt_view(r.package_home_page) == spec_opt_view(package.homepage),
            r.source_information is None,
            r.concluded_license.expression@ == "NOASSERTION"@,
            r.declared_license.expression@ == "NOASSERTION"@,
            r.copyright_text@ == "NOASSERTION"@,
            r.package_summary_description is None,
            r.package_comment is None,
            r.external_reference@.len() == 1,
            r.external_reference@[0].reference_category
                == ExternalPackageReferenceCategory::PackageManager,
            r.external_reference@[0].reference_type@ == "purl"@,
            r.external_reference@[0].reference_locator@ == spec_purl(
                package.name@,
                package.version@,
            ),
            r.external_reference@[0].reference_comment is None,
            r.package_attribution_text@.len() == 0,
            r.files@.len() == 0,
            r.comments_on_license is None,
            r.all_licenses_information_from_files@.len() == 0,
            r.package_detailed_description is None,
            r.annotations@.len() == 0,
    {
        let mut identifier: String = "SPDXRef-".to_owned();
        identifier.append(package.name.as_str());
        identifier.append("-");
        identifier.append(package.version.as_str());

        let mut locator: String = "pkg:cargo/".to_owned();
        locator.append(package.name.as_str());
        locator.append("@");
        locator.append(package.version.as_str());

        let mut external_reference: Vec<ExternalPackageReference> = Vec::new();
        external_reference.push(
            ExternalPackageReference {
                reference_category: ExternalPackageReferenceCategory::PackageManager,
                reference_type: "purl".to_owned(),
                reference_locator: locator,
                reference_comment: None,
            },
        );

        let homepage = match &package.homepage {
            Some(h) => Some(h.clone()),
            None => None,
        };

        PackageInformation {
            package_name: package.name.clone(),
            package_spdx_identifier: identifier,
            package_version: Some(package.version.clone()),
            package_file_name: None,
            package_supplier: None,
            package_originator: None,
            package_download_location: "NOASSERTION".to_owned(),
            files_analyzed: None,
            package_verification_code: None,
            package_checksum: Vec::new(),
            package_home_page: homepage,
            source_information: None,
            concluded_license: SpdxExpression::no_assertion(),
            declared_license: SpdxExpression::no_assertion(),
            copyright_text: "NOASSERTION".to_owned(),
            package_summary_description: None,
            package_comment: None,
            external_reference,
            package_attribution_text: Vec::new(),
            files: Vec::new(),
            comments_on_license: None,
            all_licenses_information_from_files: Vec::new(),
            package_detailed_description: None,
            annotations: Vec::new(),
        }
    }
}

impl FileInformation {
    /// Maps one binary artifact into the canonical file entity: the
    /// identifier is derived from the path's final segment, and the two
    /// mandated checksums are computed over the artifact's content. Returns
    /// `None` exactly when the path has no file-name component.
    pub fn try_from_binary(path: &str, contents: &[u8]) -> (r: Option<Self>)
        ensures
            r is Some <==> spec_file_name(path@) is Some,
            r matches Some(f) ==> {
                &&& spec_file_name(path@) == Some(f.file_name@)
                &&& f.file_spdx_identifier@ == "SPDXRef-File-"@ + f.file_name@
                &&& f.file_type@ == seq![FileType::Binary]
                &&& f.file_checksum@.len() == 2
                &&& f.file_checksum@[0].algorithm == Algorithm::SHA1
                &&& f.file_checksum@[0].value@ == legacy_digest(contents@)
                &&& f.file_checksum@[1].algorithm == Algorithm::SHA256
                &&& f.file_checksum@[1].value@ == modern_digest(contents@)
                &&& f.concluded_license.expression@ == "NOASSERTION"@
                &&& f.license_information_in_file@.len() == 0
                &&& f.comments_on_license is None
                &&& f.copyright_text@ == "NOASSERTION"@
                &&& f.file_comment is None
                &&& f.file_notice is None
                &&& f.file_contributor@.len() == 0
                &&& f.file_attribution_text is None
            },
    {
        let file_name = match file_name_of(path) {
            Some(name) => name,
            None => {
                return None;
            },
        };
        let mut spdxid: String = "SPDXRef-File-".to_owned();
        spdxid.append(file_name.as_str());
        let mut file_type: Vec<FileType> = Vec::new();
        file_type.push(FileType::Binary);
        proof {
            assert(file_type@ =~= seq![FileType::Binary]);
        }
        Some(
            FileInformation {
                file_name,
                file_spdx_identifier: spdxid,
                file_type,
                file_checksum: calculate_checksums(contents),
                concluded_license: SpdxExpression::no_assertion(),
                license_information_in_file: Vec::new(),
                comments_on_license: None,
                copyright_text: "NOASSERTION".to_owned(),
                file_comment: None,
                file_notice: None,
                file_contributor: Vec::new(),
                file_attribution_text: None,
            },
        )
    }
}

/// Assembles the document root around its creation information: the fixed
/// schema version and data license, the given name and namespace, and no
/// packages, files, relationships or annotations yet.
pub fn build_document(document_name: &str, namespace: &str, creation_info: CreationInfo) -> (d:
    Spdx)
    ensures
        d.document_creation_information.spdx_version@ == "SPDX-2.2"@,
        d.document_creation_information.data_license@ == "CC0-1.0"@,
        d.document_creation_information.spdx_identifier@ == "SPDXRef-DOCUMENT"@,
        d.document_creation_information.document_name@ == document_name@,
        d.document_creation_information.spdx_document_namespace@ == namespace@,
        d.document_creation_information.creation_info == creation_info,
        d.document_creation_information.document_comment is None,
        d.package_information@.len() == 0,
        d.file_information@.len() == 0,
        d.relationships@.len() == 0,
        d.annotations@.len() == 0,
        d.spdx_ref_counter == 0,
{
    Spdx {
        document_creation_information: DocumentCreationInformation {
            spdx_version: "SPDX-2.2".to_owned(),
            data_license: "CC0-1.0".to_owned(),
            spdx_identifier: "SPDXRef-DOCUMENT".to_owned(),
            document_name: document_name.to_owned(),
            spdx_document_namespace: namespace.to_owned(),
            creation_info,
            document_comment: None,
        },
        package_information: Vec::new(),
        file_information: Vec::new(),
        relationships: Vec::new(),
        annotations: Vec::new(),
        spdx_ref_counter: 0,
    }
}

} // verus!
