//! Renders the document-creation-information section of a document in the
//! flat key-value format: one `Key: Value` pair per line, in the schema's
//! canonical field order, optional fields only when present, repeated fields
//! once per item in list order.
//!
//! The package, file, relationship and annotation sections are not yet
//! rendered in this format: the rendering covers the creation-information
//! section alone.

use crate::document::Spdx;
use vstd::prelude::*;
use vstd::string::StringExecFns;

verus! {

/// One rendered line: `<label>: <value>` and a newline.
pub open spec fn spec_line(label: Seq<char>, value: Seq<char>) -> Seq<char> {
    label + ": "@ + value + "\n"@
}

/// One rendered line per creator, in list order.
pub open spec fn spec_creator_lines(creators: Seq<String>) -> Seq<char>
    decreases creators.len(),
{
    if creators.len() == 0 {
        Seq::empty()
    } else {
        spec_creator_lines(creators.drop_last()) + spec_line("Creator"@, creators.last()@)
    }
}

/// An optional rendered line: present exactly when the field is.
pub open spec fn spec_opt_line(label: Seq<char>, value: Option<String>) -> Seq<char> {
    match value {
        Some(v) => spec_line(label, v@),
        None => Seq::empty(),
    }
}

/// The complete key-value rendering of a document.
pub open spec fn spec_key_value(doc: Spdx) -> Seq<char> {
    let d = doc.document_creation_information;
    spec_line("SPDXVersion"@, d.spdx_version@) + spec_line("DataLicense"@, d.data_license@)
        + spec_line("SPDXID"@, d.spdx_identifier@) + spec_line("DocumentName"@, d.document_name@)
        + spec_line("DocumentNamespace"@, d.spdx_document_namespace@) + spec_opt_line(
        "LicenseListVersion"@,
        d.creation_info.license_list_version,
    ) + spec_creator_lines(d.creation_info.creators@) + spec_line(
        "Created"@,
        d.creation_info.created@,
    ) + spec_opt_line("CreatorComment"@, d.creation_info.creator_comment) + spec_opt_line(
        "DocumentComment"@,
        d.document_comment,
    )
}

/// Appends one `label: value` line to the rendering.
fn append_line(w: &mut String, label: &str, value: &str)
    ensures
        final(w)@ == old(w)@ + spec_line(label@, value@),
{
    w.append(label);
    w.append(": ");
    w.append(value);
    w.append("\n");
}

/// Writes the document out in the flat key-value format.
pub fn write(doc: &Spdx) -> (r: String)
    ensures
        r@ == spec_key_value(*doc),
{
    let d = &doc.document_creation_information;
    let mut w = String::new();
    append_line(&mut w, "SPDXVersion", d.spdx_version.as_str());
    append_line(&mut w, "DataLicense", d.data_license.as_str());
    append_line(&mut w, "SPDXID", d.spdx_identifier.as_str());
    append_line(&mut w, "DocumentName", d.document_name.as_str());
    append_line(&mut w, "DocumentNamespace", d.spdx_document_namespace.as_str());
    match &d.creation_info.license_list_version {
        Some(v) => append_line(&mut w, "LicenseListVersion", v.as_str()),
        None => {},
    }
    let ghost prefix = w@;
    let k = d.creation_info.creators.len();
    for i in 0..k
        invariant
            k == d.creation_info.creators@.len(),
            w@ == prefix + spec_creator_lines(d.creation_info.creators@.take(i as int)),
    {
        append_line(&mut w, "Creator", d.creation_info.creators[i].as_str());
        proof {
            let c = d.creation_info.creators@;
            assert(c.take(i + 1).drop_last() =~= c.take(i as int));
            assert(c.take(i + 1).last() == c[i as int]);
        }
    }
    proof {
        assert(d.creation_info.creators@.take(k as int) =~= d.creation_info.creators@);
    }
    append_line(&mut w, "Created", d.creation_info.created.as_str());
    match &d.creation_info.creator_comment {
        Some(c) => append_line(&mut w, "CreatorComment", c.as_str()),
        None => {},
    }
    match &d.document_comment {
        Some(c) => append_line(&mut w, "DocumentComment", c.as_str()),
        None => {},
    }
    w
}

} // verus!
