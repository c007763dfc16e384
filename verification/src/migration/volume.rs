//! Identity of the destination volume, read from `diskutil info -plist`.

use vstd::prelude::*;
use vstd::string::StringExecFns;
use crate::text::{
    chars_of, is_ascii_alphanumeric, is_ascii_hexdigit, starts_with_seq, starts_with_str,
    string_from_chars, to_ascii_upper, upper_seq,
};
use super::MigrationError;
use super::trim::TargetVolumeIdentity;

verus! {

broadcast use vstd::string::group_string_axioms;

/// Whether `plist::Value::from_reader` reads the document `doc` without
/// error.
pub uninterp spec fn plist_parses(doc: Seq<u8>) -> bool;

/// Whether the value that the document `doc` parses to is a dictionary,
/// as `plist::Value::as_dictionary` tells.
pub uninterp spec fn plist_is_dictionary(doc: Seq<u8>) -> bool;

/// The text under `key` in the dictionary of the document `doc`, as
/// `plist::Dictionary::get` and `plist::Value::as_string` read it; `None`
/// when the key is absent or its value is not a string.
pub uninterp spec fn plist_entry_string(doc: Seq<u8>, key: Seq<char>) -> Option<Seq<char>>;

/// Why a property list yields no dictionary fields.
#[derive(Debug, Clone, PartialEq, Eq)]
pub enum PlistShape {
    /// The document does not parse; the parser's message.
    Unparsable(String),
    /// The document is not a dictionary.
    NotDictionary,
}

/// `plist::Value::from_reader` over an in-memory document, then
/// `as_dictionary`, `Dictionary::get(key)` and `Value::as_string`: the text
/// under `key`, or why the document has no dictionary.
#[verifier::external_body]
fn plist_string_field(doc: &[u8], key: &str) -> (r: Result<Option<String>, PlistShape>)
    ensures
        match r {
            Err(PlistShape::Unparsable(_)) => !plist_parses(doc@),
            Err(PlistShape::NotDictionary) => plist_parses(doc@) && !plist_is_dictionary(doc@),
            Ok(text) => plist_parses(doc@) && plist_is_dictionary(doc@) && opt_view(text)
                == plist_entry_string(doc@, key@),
        },
{
    let value = match plist::Value::from_reader(std::io::Cursor::new(doc)) {
        Ok(value) => value,
        Err(error) => return Err(PlistShape::Unparsable(error.to_string())),
    };
    match value.as_dictionary() {
        Some(dictionary) => Ok(dictionary.get(key).and_then(plist::Value::as_string).map(str::to_owned)),
        None => Err(PlistShape::NotDictionary),
    }
}

/// A volume UUID as `diskutil` prints it: 36 hexadecimal digits and dashes.
pub open spec fn valid_volume_uuid(uuid: Seq<char>) -> bool {
    uuid.len() == 36 && forall|k: int| 0 <= k < uuid.len() ==> (is_ascii_hexdigit(uuid[k]) || uuid[k] == '-')
}

/// A BSD device name such as `disk4s1`.
pub open spec fn valid_device_identifier(device: Seq<char>) -> bool {
    starts_with_seq(device, "disk"@) && forall|k: int| 0 <= k < device.len() ==> is_ascii_alphanumeric(device[k])
}

/// Whether the fields read from `diskutil` describe an APFS volume with a
/// well-formed identity: the file-system type must be `apfs`, the UUID (upper-cased)
/// and the device identifier must be well-formed.
pub open spec fn identity_accepted(fs_type: Option<Seq<char>>, uuid: Option<Seq<char>>, device: Option<Seq<char>>) -> Result<(), MigrationError> {
    match fs_type {
        None => Err(MigrationError::InvalidInput("diskutil volume identity")),
        Some(fs) => if fs != "apfs"@ {
            Err(MigrationError::InvalidInput("destination APFS filesystem"))
        } else {
            match (uuid, device) {
                (Some(u), Some(d)) => if valid_volume_uuid(upper_seq(u)) && valid_device_identifier(d) {
                    Ok(())
                } else {
                    Err(MigrationError::InvalidInput("diskutil volume identity"))
                },
                _ => Err(MigrationError::InvalidInput("diskutil volume identity")),
            }
        },
    }
}

pub open spec fn opt_view(s: Option<String>) -> Option<Seq<char>> {
    match s {
        Some(v) => Some(v@),
        None => None,
    }
}

fn all_uuid_chars(u: &Vec<char>) -> (r: bool)
    ensures
        r == valid_volume_uuid(u@),
{
    if u.len() != 36 {
        return false;
    }
    for k in 0..u.len()
        invariant
            forall|m: int| 0 <= m < k ==> (is_ascii_hexdigit(u@[m]) || u@[m] == '-'),
    {
        let c = u[k];
        if !(('0' <= c && c <= '9') || ('a' <= c && c <= 'f') || ('A' <= c && c <= 'F') || c == '-') {
            return false;
        }
    }
    true
}

fn all_device_chars(d: &Vec<char>) -> (r: bool)
    ensures
        r == valid_device_identifier(d@),
{
    if !starts_with_str(d, "disk") {
        return false;
    }
    for k in 0..d.len()
        invariant
            forall|m: int| 0 <= m < k ==> is_ascii_alphanumeric(d@[m]),
    {
        let c = d[k];
        if !(('0' <= c && c <= '9') || ('a' <= c && c <= 'z') || ('A' <= c && c <= 'Z')) {
            return false;
        }
    }
    true
}

impl TargetVolumeIdentity {
    /// Builds the identity from the `FilesystemType`, `VolumeUUID` and
    /// `DeviceIdentifier` fields; the UUID is kept upper-cased.
    pub fn from_fields(fs_type: Option<String>, uuid: Option<String>, device: Option<String>) -> (r: Result<Self, MigrationError>)
        ensures
            identity_accepted(opt_view(fs_type), opt_view(uuid), opt_view(device)) matches Err(e)
                ==> r == Err::<Self, MigrationError>(e),
            identity_accepted(opt_view(fs_type), opt_view(uuid), opt_view(device)) is Ok ==> (
            r matches Ok(id) && id.volume_uuid@ == upper_seq(opt_view(uuid)->0)
                && id.device_identifier@ == opt_view(device)->0),
    {
        let fs = match fs_type {
            Some(fs) => fs,
            None => return Err(MigrationError::InvalidInput("diskutil volume identity")),
        };
        let fs_chars = chars_of(fs.as_str());
        if !crate::text::equals_str(&fs_chars, "apfs") {
            return Err(MigrationError::InvalidInput("destination APFS filesystem"));
        }
        let (u, d) = match (uuid, device) {
            (Some(u), Some(d)) => (u, d),
            _ => return Err(MigrationError::InvalidInput("diskutil volume identity")),
        };
        let uc = chars_of(u.as_str());
        let upper = to_ascii_upper(&uc);
        let dc = chars_of(d.as_str());
        if !all_uuid_chars(&upper) || !all_device_chars(&dc) {
            return Err(MigrationError::InvalidInput("diskutil volume identity"));
        }
        Ok(Self { volume_uuid: string_from_chars(&upper), device_identifier: d })
    }

    /// Reads the identity from the property list `diskutil info -plist`
    /// prints: a document that does not parse is an I/O error, one that is
    /// not a dictionary is refused, and the three string fields decide the
    /// rest as `from_fields` does.
    pub fn parse_plist(bytes: &[u8]) -> (r: Result<Self, MigrationError>)
        ensures
            !plist_parses(bytes@) <==> r matches Err(MigrationError::Io(_)),
            plist_parses(bytes@) && !plist_is_dictionary(bytes@) ==> r == Err::<Self, MigrationError>(
                MigrationError::InvalidInput("diskutil dictionary"),
            ),
            plist_parses(bytes@) && plist_is_dictionary(bytes@) ==> identity_result(
                r,
                plist_entry_string(bytes@, "FilesystemType"@),
                plist_entry_string(bytes@, "VolumeUUID"@),
                plist_entry_string(bytes@, "DeviceIdentifier"@),
            ),
    {
        let fs = match plist_string_field(bytes, "FilesystemType") {
            Ok(text) => text,
            Err(PlistShape::Unparsable(message)) => return Err(MigrationError::Io(message)),
            Err(PlistShape::NotDictionary) => return Err(MigrationError::InvalidInput("diskutil dictionary")),
        };
        let uuid = match plist_string_field(bytes, "VolumeUUID") {
            Ok(text) => text,
            Err(PlistShape::Unparsable(message)) => return Err(MigrationError::Io(message)),
            Err(PlistShape::NotDictionary) => return Err(MigrationError::InvalidInput("diskutil dictionary")),
        };
        let device = match plist_string_field(bytes, "DeviceIdentifier") {
            Ok(text) => text,
            Err(PlistShape::Unparsable(message)) => return Err(MigrationError::Io(message)),
            Err(PlistShape::NotDictionary) => return Err(MigrationError::InvalidInput("diskutil dictionary")),
        };
        let r = Self::from_fields(fs, uuid, device);
        proof {
            reveal_strlit("FilesystemType");
            reveal_strlit("VolumeUUID");
            reveal_strlit("DeviceIdentifier");
        }
        r
    }
}

/// `r` is what `from_fields` returns for fields with these contents.
pub open spec fn identity_result(r: Result<TargetVolumeIdentity, MigrationError>, fs: Option<Seq<char>>, uuid: Option<Seq<char>>, device: Option<Seq<char>>) -> bool {
    match identity_accepted(fs, uuid, device) {
        Err(e) => r == Err::<TargetVolumeIdentity, MigrationError>(e),
        Ok(()) => r matches Ok(id) && id.volume_uuid@ == upper_seq(uuid->0) && id.device_identifier@ == device->0,
    }
}

} // verus!
