//! Checks on snapshots and their records.

use vstd::prelude::*;
use vstd::string::*;
use sha2::Digest;
use crate::snap::error::{SnapError, SnapResult};
use crate::snap::types::{SnapMetadata, SnapRecord};
use crate::text::{decimal, u64_to_decimal};

verus! {

/// Version of the snapshot format.
pub const CDK_SNAP_VERSION: u32 = 1;

/// The SHA-256 digest of a byte string, in lower-case hexadecimal: what
/// `sha2::Sha256` computes, written out with `{:x}`.
pub uninterp spec fn sha256_hex(content: Seq<u8>) -> Seq<char>;

/// `sha2::Sha256` over `content` (`new`, `update`, `finalize`), written out
/// in lower-case hexadecimal.
#[verifier::external_body]
pub(crate) fn sha256_hex_of(content: &[u8]) -> (r: String)
    ensures
        r@ == sha256_hex(content@),
{
    let mut hasher = sha2::Sha256::new();
    hasher.update(content);
    format!("{:x}", hasher.finalize())
}

/// The rule that a record breaks.
#[derive(Debug, Clone, Copy, PartialEq, Eq, Structural)]
pub enum RecordFault {
    /// The key is empty.
    EmptyKey,
    /// The value is empty.
    EmptyValue,
}

impl RecordFault {
    /// The text that reports the fault.
    pub open spec fn message_spec(&self) -> Seq<char> {
        match self {
            RecordFault::EmptyKey => "Empty record key"@,
            RecordFault::EmptyValue => "Empty record value"@,
        }
    }

    /// The text that reports the fault.
    pub fn message(&self) -> (r: String)
        ensures
            r@ == self.message_spec(),
    {
        match self {
            RecordFault::EmptyKey => String::from_str("Empty record key"),
            RecordFault::EmptyValue => String::from_str("Empty record value"),
        }
    }
}

/// The rule that a record breaks, if any: the key is looked at before the value.
pub open spec fn record_fault(record: &SnapRecord) -> Option<RecordFault> {
    if record.key@.len() == 0 {
        Some(RecordFault::EmptyKey)
    } else if record.value@.len() == 0 {
        Some(RecordFault::EmptyValue)
    } else {
        None
    }
}

/// The position of the first record at or after `from` that breaks a rule, or
/// the number of records where there is none.
pub open spec fn first_bad_record(records: Seq<SnapRecord>, from: int) -> int
    decreases records.len() - from,
{
    if from < 0 || from >= records.len() {
        records.len() as int
    } else if record_fault(&records[from]) is Some {
        from
    } else {
        first_bad_record(records, from + 1)
    }
}

/// The text that reports a fault of the record at a position.
pub open spec fn record_message(position: nat, fault: RecordFault) -> Seq<char> {
    "Record "@ + decimal(position) + ": Validation error: "@ + fault.message_spec()
}

/// Checks snapshots.
#[derive(Debug, Clone, Copy, PartialEq, Eq)]
pub struct SnapValidator;

impl SnapValidator {
    /// Checks what a snapshot says of itself: `VersionMismatch` for a version
    /// other than 1, else `Validation` for a snapshot without records, else `Ok`.
    pub fn validate_metadata(&self, metadata: &SnapMetadata) -> (r: SnapResult<()>)
        ensures
            metadata.version != 1 ==> r == Err::<(), SnapError>(
                SnapError::VersionMismatch { expected: 1, actual: metadata.version },
            ),
            metadata.version == 1 && metadata.record_count == 0 ==> (r matches Err(
                SnapError::Validation(text),
            ) && text@ == "Empty snapshot"@),
            metadata.version == 1 && metadata.record_count != 0 ==> r is Ok,
    {
        if metadata.version != 1 {
            return Err(SnapError::VersionMismatch { expected: 1, actual: metadata.version });
        }
        if metadata.record_count == 0 {
            return Err(SnapError::Validation(String::from_str("Empty snapshot")));
        }
        Ok(())
    }

    /// Checks the contents of a snapshot file and gives its checksum:
    /// `Validation` exactly when the file is empty.
    pub fn validate_content(&self, content: &[u8]) -> (r: SnapResult<String>)
        ensures
            content@.len() == 0 ==> (r matches Err(SnapError::Validation(text)) && text@
                == "Empty snapshot file"@),
            content@.len() > 0 ==> r is Ok && r->Ok_0@ == sha256_hex(content@),
    {
        if content.len() == 0 {
            return Err(SnapError::Validation(String::from_str("Empty snapshot file")));
        }
        Ok(sha256_hex_of(content))
    }

    /// The error for a snapshot file that does not exist.
    pub fn missing_file() -> (r: SnapError)
        ensures
            r matches SnapError::Io(text) && text@ == "Snapshot file not found"@,
    {
        SnapError::Io(String::from_str("Snapshot file not found"))
    }

    /// The rule that a record breaks, if any.
    pub fn check_record(record: &SnapRecord) -> (r: Option<RecordFault>)
        ensures
            r == record_fault(record),
    {
        if record.key.len() == 0 {
            Some(RecordFault::EmptyKey)
        } else if record.value.len() == 0 {
            Some(RecordFault::EmptyValue)
        } else {
            None
        }
    }

    /// Checks one record: `Ok` exactly when neither its key nor its value is empty.
    pub fn validate_record(&self, record: &SnapRecord) -> (r: SnapResult<()>)
        ensures
            match record_fault(record) {
                None => r is Ok,
                Some(fault) => r matches Err(SnapError::Validation(text)) && text@
                    == fault.message_spec(),
            },
    {
        match Self::check_record(record) {
            None => Ok(()),
            Some(fault) => Err(SnapError::Validation(fault.message())),
        }
    }

    /// Checks the records in order: `Ok` exactly when none breaks a rule; else
    /// `Validation`, which names the first one that does.
    pub fn validate_records(&self, records: &Vec<SnapRecord>) -> (r: SnapResult<()>)
        ensures
            first_bad_record(records@, 0) >= records@.len() ==> r is Ok,
            first_bad_record(records@, 0) < records@.len() ==> (r matches Err(
                SnapError::Validation(text),
            ) && text@ == record_message(
                first_bad_record(records@, 0) as nat,
                record_fault(&records@[first_bad_record(records@, 0)])->0,
            )),
    {
        let mut i: usize = 0;
        while i < records.len()
            invariant
                i <= records@.len(),
                first_bad_record(records@, 0) == first_bad_record(records@, i as int),
            decreases records@.len() - i,
        {
            match Self::check_record(&records[i]) {
                Some(fault) => {
                    assert(first_bad_record(records@, i as int) == i);
                    let position = u64_to_decimal(i as u64);
                    let reason = fault.message();
                    let mut text = String::from_str("Record ");
                    text.append(position.as_str());
                    text.append(": Validation error: ");
                    text.append(reason.as_str());
                    return Err(SnapError::Validation(text));
                },
                None => {},
            }
            i = i + 1;
        }
        Ok(())
    }
}

} // verus!
