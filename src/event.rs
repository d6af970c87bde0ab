//! The domain event and its normalization from a raw notification record.

use vstd::prelude::*;
use crate::timestamp::{RawTimestamp, Timestamp};

verus! {

/// A notification record as the facility delivered it, every field as
/// reported: `None` where the source left the field out or null.
#[derive(Clone, Debug, PartialEq, Eq)]
pub struct RawRecord {
    pub process_id: Option<u32>,
    pub name: Option<String>,
    pub executable_path: Option<String>,
    pub parent_process_id: Option<u32>,
    pub command_line: Option<String>,
    pub creation_date: Option<RawTimestamp>,
}

/// A newly created process. Absent optional fields stay absent: no zero or
/// empty value stands in for them.
#[derive(Clone, Debug, PartialEq, Eq)]
pub struct ProcessEvent {
    pub process_id: u32,
    pub name: String,
    pub executable_path: Option<String>,
    pub parent_process_id: Option<u32>,
    pub command_line: Option<String>,
    pub created_at: Option<Timestamp>,
}

/// Why a record could not become a `ProcessEvent`.
#[derive(Clone, Copy, Debug, PartialEq, Eq)]
pub enum RecordParseError {
    MissingProcessId,
    MissingName,
    EmptyName,
    InvalidCreationDate,
}

impl ProcessEvent {
    pub open spec fn wf(&self) -> bool {
        &&& self.name@.len() > 0
        &&& self.created_at matches Some(t) ==> t.wf()
    }
}

/// The error that normalization gives for `raw`, if any; the first that
/// applies in the order process id, name, creation date.
pub open spec fn parse_error(raw: RawRecord) -> Option<RecordParseError> {
    if raw.process_id is None {
        Some(RecordParseError::MissingProcessId)
    } else if raw.name is None {
        Some(RecordParseError::MissingName)
    } else if raw.name.unwrap()@.len() == 0 {
        Some(RecordParseError::EmptyName)
    } else if raw.creation_date matches Some(d) && !d.is_valid() {
        Some(RecordParseError::InvalidCreationDate)
    } else {
        None
    }
}

/// `e` carries exactly what `raw` reported: each optional field is present
/// iff the source field was, with the same value, and the creation time is
/// the reported one truncated to the second.
pub open spec fn carries(raw: RawRecord, e: ProcessEvent) -> bool {
    &&& raw.process_id == Some(e.process_id)
    &&& raw.name == Some(e.name)
    &&& e.executable_path == raw.executable_path
    &&& e.parent_process_id == raw.parent_process_id
    &&& e.command_line == raw.command_line
    &&& e.created_at is Some <==> raw.creation_date is Some
    &&& e.created_at matches Some(t) ==> t.truncates(raw.creation_date.unwrap())
}

/// Turns a raw record into a `ProcessEvent`, or says why it cannot.
pub fn normalize(raw: RawRecord) -> (r: Result<ProcessEvent, RecordParseError>)
    ensures
        match r {
            Ok(e) => parse_error(raw) is None && carries(raw, e) && e.wf(),
            Err(err) => parse_error(raw) == Some(err),
        },
{
    let RawRecord {
        process_id,
        name,
        executable_path,
        parent_process_id,
        command_line,
        creation_date,
    } = raw;
    let process_id = match process_id {
        Some(p) => p,
        None => {
            return Err(RecordParseError::MissingProcessId);
        },
    };
    let name = match name {
        Some(n) => n,
        None => {
            return Err(RecordParseError::MissingName);
        },
    };
    if name.as_str().is_empty() {
        return Err(RecordParseError::EmptyName);
    }
    let created_at = match creation_date {
        Some(d) => match Timestamp::from_raw(&d) {
            Some(t) => Some(t),
            None => {
                return Err(RecordParseError::InvalidCreationDate);
            },
        },
        None => None,
    };
    Ok(
        ProcessEvent {
            process_id,
            name,
            executable_path,
            parent_process_id,
            command_line,
            created_at,
        },
    )
}

} // verus!
