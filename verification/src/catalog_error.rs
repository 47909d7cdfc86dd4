//! Why a catalog value, request or page is rejected.
use vstd::prelude::*;

use crate::catalog::{CatalogId, CatalogIdView, CatalogKind, ObjectGroup};
use crate::page::{
    CatalogCompleteness, CatalogRequestKey, CatalogRequestKeyView, CatalogTarget,
    CatalogTargetView,
};
use crate::scope::CatalogScopeValidationError;

verus! {

#[allow(inconsistent_fields)]
#[derive(Clone, Debug, PartialEq, Eq)]
pub enum CatalogValidationError {
    InvalidKind { expected: &'static str, found: CatalogKind },
    ProfileMismatch { child_profile_id: u128, parent_profile_id: u128 },
    EmptyQualifiedObject,
    MetadataKindMismatch { kind: CatalogKind },
    ForeignKeyColumnCountMismatch,
    InvalidPageSize { found: usize, max: usize },
    InvalidScope(CatalogScopeValidationError),
    RequestKeyMismatch { expected: Box<CatalogRequestKey>, found: Box<CatalogRequestKey> },
    TooManyPageEntries { found: usize, max: usize },
    DuplicatePageEntry { id: CatalogId },
    EntryKindMismatch { id: CatalogId, id_kind: CatalogKind, entry_kind: CatalogKind },
    EntryOutsideTarget { id: CatalogId, target: CatalogTarget },
    EntryOutsideScope { id: CatalogId },
    MissingQualifiedNamePart { id: CatalogId, part: &'static str },
    InvalidQualifiedNameShape { id: CatalogId },
    CompletenessMismatch { expected: CatalogCompleteness, found: CatalogCompleteness },
    EmptyCursor,
    EmptyNativePath { id: CatalogId },
    InvalidEntryShape { id: CatalogId },
    InvalidNativePathShape { id: CatalogId, expected: &'static str },
    TargetOutsideScope { target: Box<CatalogTarget> },
    NativeNamespaceMismatch { id: CatalogId },
    PagePayloadMismatch { target: Box<CatalogTarget> },
    DuplicateGroupSummary { group: ObjectGroup },
    MalformedCursor,
    EmptyCursorTieBreaker,
    TotalCountBelowPayload { count: u64, payload_len: usize },
    NonAdvancingCursor,
    PartialPagePayloadSizeMismatch { expected: usize, found: usize },
    InitialExactCountMismatch { count: u64, payload_len: usize },
    NativeIdentityMismatch { id: CatalogId },
}

/// A validation error with its identities seen through their views.
#[allow(inconsistent_fields)]
pub enum CatalogIssue {
    InvalidKind { expected: Seq<char>, found: CatalogKind },
    ProfileMismatch { child_profile_id: u128, parent_profile_id: u128 },
    EmptyQualifiedObject,
    MetadataKindMismatch { kind: CatalogKind },
    ForeignKeyColumnCountMismatch,
    InvalidPageSize { found: usize, max: usize },
    InvalidScope(CatalogScopeValidationError),
    RequestKeyMismatch { expected: CatalogRequestKeyView, found: CatalogRequestKeyView },
    TooManyPageEntries { found: usize, max: usize },
    DuplicatePageEntry { id: CatalogIdView },
    EntryKindMismatch { id: CatalogIdView, id_kind: CatalogKind, entry_kind: CatalogKind },
    EntryOutsideTarget { id: CatalogIdView, target: CatalogTargetView },
    EntryOutsideScope { id: CatalogIdView },
    MissingQualifiedNamePart { id: CatalogIdView, part: Seq<char> },
    InvalidQualifiedNameShape { id: CatalogIdView },
    CompletenessMismatch { expected: CatalogCompleteness, found: CatalogCompleteness },
    EmptyCursor,
    EmptyNativePath { id: CatalogIdView },
    InvalidEntryShape { id: CatalogIdView },
    InvalidNativePathShape { id: CatalogIdView, expected: Seq<char> },
    TargetOutsideScope { target: CatalogTargetView },
    NativeNamespaceMismatch { id: CatalogIdView },
    PagePayloadMismatch { target: CatalogTargetView },
    DuplicateGroupSummary { group: ObjectGroup },
    MalformedCursor,
    EmptyCursorTieBreaker,
    TotalCountBelowPayload { count: u64, payload_len: usize },
    NonAdvancingCursor,
    PartialPagePayloadSizeMismatch { expected: usize, found: usize },
    InitialExactCountMismatch { count: u64, payload_len: usize },
    NativeIdentityMismatch { id: CatalogIdView },
}

impl View for CatalogValidationError {
    type V = CatalogIssue;

    open spec fn view(&self) -> CatalogIssue {
        match *self {
            CatalogValidationError::InvalidKind { expected, found } => CatalogIssue::InvalidKind {
                expected: expected@,
                found,
            },
            CatalogValidationError::ProfileMismatch { child_profile_id, parent_profile_id } =>
                CatalogIssue::ProfileMismatch { child_profile_id, parent_profile_id },
            CatalogValidationError::EmptyQualifiedObject => CatalogIssue::EmptyQualifiedObject,
            CatalogValidationError::MetadataKindMismatch { kind } =>
                CatalogIssue::MetadataKindMismatch { kind },
            CatalogValidationError::ForeignKeyColumnCountMismatch =>
                CatalogIssue::ForeignKeyColumnCountMismatch,
            CatalogValidationError::InvalidPageSize { found, max } =>
                CatalogIssue::InvalidPageSize { found, max },
            CatalogValidationError::InvalidScope(e) => CatalogIssue::InvalidScope(e),
            CatalogValidationError::RequestKeyMismatch { expected, found } =>
                CatalogIssue::RequestKeyMismatch { expected: expected@, found: found@ },
            CatalogValidationError::TooManyPageEntries { found, max } =>
                CatalogIssue::TooManyPageEntries { found, max },
            CatalogValidationError::DuplicatePageEntry { id } => CatalogIssue::DuplicatePageEntry {
                id: id@,
            },
            CatalogValidationError::EntryKindMismatch { id, id_kind, entry_kind } =>
                CatalogIssue::EntryKindMismatch { id: id@, id_kind, entry_kind },
            CatalogValidationError::EntryOutsideTarget { id, target } =>
                CatalogIssue::EntryOutsideTarget { id: id@, target: target@ },
            CatalogValidationError::EntryOutsideScope { id } => CatalogIssue::EntryOutsideScope {
                id: id@,
            },
            CatalogValidationError::MissingQualifiedNamePart { id, part } =>
                CatalogIssue::MissingQualifiedNamePart { id: id@, part: part@ },
            CatalogValidationError::InvalidQualifiedNameShape { id } =>
                CatalogIssue::InvalidQualifiedNameShape { id: id@ },
            CatalogValidationError::CompletenessMismatch { expected, found } =>
                CatalogIssue::CompletenessMismatch { expected, found },
            CatalogValidationError::EmptyCursor => CatalogIssue::EmptyCursor,
            CatalogValidationError::EmptyNativePath { id } => CatalogIssue::EmptyNativePath {
                id: id@,
            },
            CatalogValidationError::InvalidEntryShape { id } => CatalogIssue::InvalidEntryShape {
                id: id@,
            },
            CatalogValidationError::InvalidNativePathShape { id, expected } =>
                CatalogIssue::InvalidNativePathShape { id: id@, expected: expected@ },
            CatalogValidationError::TargetOutsideScope { target } =>
                CatalogIssue::TargetOutsideScope { target: target@ },
            CatalogValidationError::NativeNamespaceMismatch { id } =>
                CatalogIssue::NativeNamespaceMismatch { id: id@ },
            CatalogValidationError::PagePayloadMismatch { target } =>
                CatalogIssue::PagePayloadMismatch { target: target@ },
            CatalogValidationError::DuplicateGroupSummary { group } =>
                CatalogIssue::DuplicateGroupSummary { group },
            CatalogValidationError::MalformedCursor => CatalogIssue::MalformedCursor,
            CatalogValidationError::EmptyCursorTieBreaker => CatalogIssue::EmptyCursorTieBreaker,
            CatalogValidationError::TotalCountBelowPayload { count, payload_len } =>
                CatalogIssue::TotalCountBelowPayload { count, payload_len },
            CatalogValidationError::NonAdvancingCursor => CatalogIssue::NonAdvancingCursor,
            CatalogValidationError::PartialPagePayloadSizeMismatch { expected, found } =>
                CatalogIssue::PartialPagePayloadSizeMismatch { expected, found },
            CatalogValidationError::InitialExactCountMismatch { count, payload_len } =>
                CatalogIssue::InitialExactCountMismatch { count, payload_len },
            CatalogValidationError::NativeIdentityMismatch { id } =>
                CatalogIssue::NativeIdentityMismatch { id: id@ },
        }
    }
}

/// The view of a validation result.
pub open spec fn result_view(r: Result<(), CatalogValidationError>) -> Option<CatalogIssue> {
    match r {
        Ok(()) => None,
        Err(e) => Some(e@),
    }
}

} // verus!
