use vstd::prelude::*;

use crate::ids::{BucketId, CollectionId, DatabaseId, FileId, TeamId};
use crate::permission::Permission;
use crate::search::Order;

verus! {

/// The processing state of an attribute or index.
#[derive(Debug, Clone, Copy, PartialEq, Eq, Structural)]
pub enum DataStatus {
    Available,
    Processing,
    Deleting,
    Stuck,
    Failed,
}

impl Default for DataStatus {
    fn default() -> (r: DataStatus)
        ensures
            r == DataStatus::Available,
    {
        DataStatus::Available
    }
}

/// The error body that the service sends with a failed request.
#[derive(Debug, Clone)]
pub struct ErrorResponse {
    pub code: u16,
    pub message: String,
    pub error_type: String,
    pub version: String,
}

/// One page of a listing, with the number of items there are in all.
#[derive(Debug, Clone)]
pub struct ListResponse<T> {
    pub items: Vec<T>,
    pub total: u64,
}

/// A resource that comes in listings, under a key of its own.
pub trait ListKey {
    /// The key under which a listing holds the items.
    spec fn spec_list_key() -> Seq<char>;

    /// The key under which a listing holds the items.
    fn list_key() -> (r: &'static str)
        ensures
            r@ == Self::spec_list_key(),
    ;
}
/// State of a function execution.
#[derive(Debug, Clone, Copy, PartialEq, Eq, Structural)]
pub enum ExecutionStatus {
    Waiting,
    Processing,
    Completed,
    Failed,
}
/// What started a function execution.
#[derive(Debug, Clone, Copy, PartialEq, Eq, Structural)]
pub enum ExecutionTrigger {
    Http,
    Schedule,
    Event,
}
/// Whether a function can run.
#[derive(Debug, Clone, Copy, PartialEq, Eq, Structural)]
pub enum FunctionStatus {
    Enabled,
    Disabled,
}
/// Outcome of a health check.
#[derive(Debug, Clone, Copy, PartialEq, Eq, Structural)]
pub enum HealthStatus {
    Pass,
    Fail,
}
/// State of the antivirus service.
#[derive(Debug, Clone, Copy, PartialEq, Eq, Structural)]
pub enum HealthAntivirusStatus {
    Disabled,
    Online,
    Offline,
}
/// Kind of a collection index.
#[derive(Debug, Clone, Copy, PartialEq, Eq, Structural)]
pub enum IndexType {
    Key,
    Fulltext,
    Unique,
}
/// Credit card brand whose icon is asked for.
#[derive(Debug, Clone, Copy, PartialEq, Eq, Structural)]
pub enum CreditcardCode {
    Amex,
    Argencard,
    Cabal,
    Cencosud,
    Diners,
    Discover,
    Elo,
    Hipercard,
    Jcb,
    Maestro,
    Mastercard,
    Mir,
    Naranja,
    TarjetaShopping,
    UnionChinaPay,
    Visa,
}

/// Result of a health check: round-trip time and outcome.
#[derive(Debug, Clone, Copy, PartialEq, Eq, Structural)]
pub struct Health {
    pub ping: u32,
    pub status: HealthStatus,
}

/// Number of jobs waiting in a queue.
#[derive(Debug, Clone, Copy, PartialEq, Eq, Structural)]
pub struct HealthQueue {
    pub size: u32,
}

/// State and version of the antivirus service.
#[derive(Debug, Clone)]
pub struct HealthAntivirus {
    pub version: String,
    pub status: HealthAntivirusStatus,
}

/// An index of a collection.
#[derive(Debug, Clone)]
pub struct Index {
    pub key: String,
    pub index_type: IndexType,
    pub status: DataStatus,
    pub attributes: Vec<String>,
    pub orders: Vec<Order>,
}

impl ListKey for Index {
    open spec fn spec_list_key() -> Seq<char> {
        "indexes"@
    }

    fn list_key() -> (r: &'static str) {
        "indexes"
    }
}

/// A size in bytes.
#[derive(Debug, Clone, Copy, PartialEq, Eq, Structural)]
pub struct FileSize(pub u64);

/// Sizes written in bytes, kilobytes, megabytes or gigabytes (of 1024).
pub trait FileSizeExt {
    /// The number as a count of bytes.
    spec fn spec_count(&self) -> nat;

    /// The number as a count of bytes.
    fn bytes(self) -> (r: u64)
        ensures
            r == self.spec_count(),
    ;

    /// The number as kilobytes.
    fn kb(self) -> (r: FileSize)
        requires
            self.spec_count() * 1024 <= u64::MAX,
        ensures
            r.0 == self.spec_count() * 1024,
    ;

    /// The number as megabytes.
    fn mb(self) -> (r: FileSize)
        requires
            self.spec_count() * 1024 * 1024 <= u64::MAX,
        ensures
            r.0 == self.spec_count() * 1024 * 1024,
    ;

    /// The number as gigabytes.
    fn gb(self) -> (r: FileSize)
        requires
            self.spec_count() * 1024 * 1024 * 1024 <= u64::MAX,
        ensures
            r.0 == self.spec_count() * 1024 * 1024 * 1024,
    ;
}

impl FileSizeExt for u8 {
    open spec fn spec_count(&self) -> nat {
        *self as nat
    }

    fn bytes(self) -> (r: u64) {
        self as u64
    }

    fn kb(self) -> (r: FileSize) {
        FileSize(self as u64 * 1024)
    }

    fn mb(self) -> (r: FileSize) {
        FileSize(self as u64 * 1024 * 1024)
    }

    fn gb(self) -> (r: FileSize) {
        FileSize(self as u64 * 1024 * 1024 * 1024)
    }
}

impl FileSizeExt for u16 {
    open spec fn spec_count(&self) -> nat {
        *self as nat
    }

    fn bytes(self) -> (r: u64) {
        self as u64
    }

    fn kb(self) -> (r: FileSize) {
        FileSize(self as u64 * 1024)
    }

    fn mb(self) -> (r: FileSize) {
        FileSize(self as u64 * 1024 * 1024)
    }

    fn gb(self) -> (r: FileSize) {
        FileSize(self as u64 * 1024 * 1024 * 1024)
    }
}

impl FileSizeExt for u32 {
    open spec fn spec_count(&self) -> nat {
        *self as nat
    }

    fn bytes(self) -> (r: u64) {
        self as u64
    }

    fn kb(self) -> (r: FileSize) {
        FileSize(self as u64 * 1024)
    }

    fn mb(self) -> (r: FileSize) {
        FileSize(self as u64 * 1024 * 1024)
    }

    fn gb(self) -> (r: FileSize) {
        FileSize(self as u64 * 1024 * 1024 * 1024)
    }
}

impl FileSizeExt for u64 {
    open spec fn spec_count(&self) -> nat {
        *self as nat
    }

    fn bytes(self) -> (r: u64) {
        self as u64
    }

    fn kb(self) -> (r: FileSize) {
        FileSize(self as u64 * 1024)
    }

    fn mb(self) -> (r: FileSize) {
        FileSize(self as u64 * 1024 * 1024)
    }

    fn gb(self) -> (r: FileSize) {
        FileSize(self as u64 * 1024 * 1024 * 1024)
    }
}

impl FileSizeExt for usize {
    open spec fn spec_count(&self) -> nat {
        *self as nat
    }

    fn bytes(self) -> (r: u64) {
        self as u64
    }

    fn kb(self) -> (r: FileSize) {
        FileSize(self as u64 * 1024)
    }

    fn mb(self) -> (r: FileSize) {
        FileSize(self as u64 * 1024 * 1024)
    }

    fn gb(self) -> (r: FileSize) {
        FileSize(self as u64 * 1024 * 1024 * 1024)
    }
}

impl FileSizeExt for i8 {
    open spec fn spec_count(&self) -> nat {
        (*self as u64) as nat
    }

    fn bytes(self) -> (r: u64) {
        self as u64
    }

    fn kb(self) -> (r: FileSize) {
        FileSize(self as u64 * 1024)
    }

    fn mb(self) -> (r: FileSize) {
        FileSize(self as u64 * 1024 * 1024)
    }

    fn gb(self) -> (r: FileSize) {
        FileSize(self as u64 * 1024 * 1024 * 1024)
    }
}

impl FileSizeExt for i16 {
    open spec fn spec_count(&self) -> nat {
        (*self as u64) as nat
    }

    fn bytes(self) -> (r: u64) {
        self as u64
    }

    fn kb(self) -> (r: FileSize) {
        FileSize(self as u64 * 1024)
    }

    fn mb(self) -> (r: FileSize) {
        FileSize(self as u64 * 1024 * 1024)
    }

    fn gb(self) -> (r: FileSize) {
        FileSize(self as u64 * 1024 * 1024 * 1024)
    }
}

impl FileSizeExt for i32 {
    open spec fn spec_count(&self) -> nat {
        (*self as u64) as nat
    }

    fn bytes(self) -> (r: u64) {
        self as u64
    }

    fn kb(self) -> (r: FileSize) {
        FileSize(self as u64 * 1024)
    }

    fn mb(self) -> (r: FileSize) {
        FileSize(self as u64 * 1024 * 1024)
    }

    fn gb(self) -> (r: FileSize) {
        FileSize(self as u64 * 1024 * 1024 * 1024)
    }
}

impl FileSizeExt for i64 {
    open spec fn spec_count(&self) -> nat {
        (*self as u64) as nat
    }

    fn bytes(self) -> (r: u64) {
        self as u64
    }

    fn kb(self) -> (r: FileSize) {
        FileSize(self as u64 * 1024)
    }

    fn mb(self) -> (r: FileSize) {
        FileSize(self as u64 * 1024 * 1024)
    }

    fn gb(self) -> (r: FileSize) {
        FileSize(self as u64 * 1024 * 1024 * 1024)
    }
}

impl FileSizeExt for isize {
    open spec fn spec_count(&self) -> nat {
        (*self as u64) as nat
    }

    fn bytes(self) -> (r: u64) {
        self as u64
    }

    fn kb(self) -> (r: FileSize) {
        FileSize(self as u64 * 1024)
    }

    fn mb(self) -> (r: FileSize) {
        FileSize(self as u64 * 1024 * 1024)
    }

    fn gb(self) -> (r: FileSize) {
        FileSize(self as u64 * 1024 * 1024 * 1024)
    }
}

/// Either every resource of a kind or one of them.
#[derive(Debug, Clone)]
pub enum Select<T> {
    All,
    One(T),
}

/// An event that a function or webhook can listen to.
#[derive(Debug)]
pub enum Event {
    Buckets(Select<BucketId>),
    BucketsCreate(Select<BucketId>),
    BucketsDelete(Select<BucketId>),
    BucketsUpdate(Select<BucketId>),
    Files((Select<BucketId>, Select<FileId>)),
    FilesCreate((Select<BucketId>, Select<FileId>)),
    FilesDelete((Select<BucketId>, Select<FileId>)),
    FilesUpdate((Select<BucketId>, Select<FileId>)),
    Databases(Select<DatabaseId>),
    DatabasesCreate(Select<DatabaseId>),
    DatabasesDelete(Select<DatabaseId>),
    DatabasesUpdate(Select<DatabaseId>),
    Collections((Select<DatabaseId>, Select<CollectionId>)),
    CollectionsCreate((Select<DatabaseId>, Select<CollectionId>)),
    CollectionsDelete((Select<DatabaseId>, Select<CollectionId>)),
    CollectionsUpdate((Select<DatabaseId>, Select<CollectionId>)),
    Documents((Select<DatabaseId>, Select<CollectionId>)),
    DocumentsCreate((Select<DatabaseId>, Select<CollectionId>)),
    DocumentsDelete((Select<DatabaseId>, Select<CollectionId>)),
    DocumentsUpdate((Select<DatabaseId>, Select<CollectionId>)),
    Indexes((Select<DatabaseId>, Select<CollectionId>)),
    IndexesCreate((Select<DatabaseId>, Select<CollectionId>)),
    IndexesDelete((Select<DatabaseId>, Select<CollectionId>)),
    IndexesUpdate((Select<DatabaseId>, Select<CollectionId>)),
    Attributes((Select<DatabaseId>, Select<CollectionId>)),
    AttributesCreate((Select<DatabaseId>, Select<CollectionId>)),
    AttributesDelete((Select<DatabaseId>, Select<CollectionId>)),
    AttributesUpdate((Select<DatabaseId>, Select<CollectionId>)),
}

/// What creating a database sends.
#[derive(Debug, Clone)]
pub struct CreateDatabasePayload {
    pub database_id: DatabaseId,
    pub name: String,
}

/// What creating a collection sends.
#[derive(Debug, Clone)]
pub struct CreateCollectionPayload {
    pub collection_id: CollectionId,
    pub name: String,
    pub permissions: Vec<Permission>,
    pub document_security: bool,
}

/// What updating a collection sends.
#[derive(Debug, Clone)]
pub struct UpdateCollectionPayload {
    pub name: String,
    pub permissions: Vec<Permission>,
    pub document_security: bool,
    pub enabled: bool,
}

/// What creating an index sends.
#[derive(Debug, Clone)]
pub struct CreateIndexPayload {
    pub key: String,
    pub index_type: IndexType,
    pub attributes: Vec<String>,
    pub orders: Vec<Order>,
}

/// What creating a team sends.
#[derive(Debug, Clone)]
pub struct CreateTeamPayload {
    pub team_id: TeamId,
    pub name: String,
    pub roles: Vec<String>,
}

/// What inviting a member to a team sends.
#[derive(Debug, Clone)]
pub struct CreateMembershipPayload {
    pub email: String,
    pub roles: Vec<String>,
    pub redirect_url: String,
    pub name: Option<String>,
}

} // verus!
