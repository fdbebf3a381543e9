use vstd::prelude::*;

verus! {

/// The identifier that asks the service to allocate a new one.
pub const UNIQUE_ID: &'static str = "unique()";

/// A value that carries the identifier the service gave it.
pub trait HasId {
    /// The identifier, as characters.
    spec fn id_view(&self) -> Seq<char>;

    /// A copy of the identifier.
    fn id(&self) -> (r: String)
        ensures
            r@ == self.id_view(),
    ;
}

/// Identifier of an access token.
#[derive(Debug, Clone, PartialEq, Eq, Default)]
pub struct TokenId(pub String);

impl TokenId {
    /// Wraps an identifier.
    pub fn new(id: String) -> (r: TokenId)
        ensures
            r.0@ == id@,
    {
        TokenId(id)
    }

    /// The identifier that asks the service to allocate a new one.
    pub fn unique() -> (r: TokenId)
        ensures
            r.0@ == UNIQUE_ID@,
    {
        TokenId(UNIQUE_ID.to_owned())
    }

    /// The identifier as text.
    pub fn to_string(&self) -> (r: String)
        ensures
            r@ == self.0@,
    {
        self.0.clone()
    }
}

impl HasId for TokenId {
    open spec fn id_view(&self) -> Seq<char> {
        self.0@
    }

    fn id(&self) -> (r: String) {
        self.0.clone()
    }
}

/// Identifier of a storage bucket.
#[derive(Debug, Clone, PartialEq, Eq, Default)]
pub struct BucketId(pub String);

impl BucketId {
    /// Wraps an identifier.
    pub fn new(id: String) -> (r: BucketId)
        ensures
            r.0@ == id@,
    {
        BucketId(id)
    }

    /// The identifier that asks the service to allocate a new one.
    pub fn unique() -> (r: BucketId)
        ensures
            r.0@ == UNIQUE_ID@,
    {
        BucketId(UNIQUE_ID.to_owned())
    }

    /// The identifier as text.
    pub fn to_string(&self) -> (r: String)
        ensures
            r@ == self.0@,
    {
        self.0.clone()
    }
}

impl HasId for BucketId {
    open spec fn id_view(&self) -> Seq<char> {
        self.0@
    }

    fn id(&self) -> (r: String) {
        self.0.clone()
    }
}

/// Identifier of a collection of documents.
#[derive(Debug, Clone, PartialEq, Eq, Default)]
pub struct CollectionId(pub String);

impl CollectionId {
    /// Wraps an identifier.
    pub fn new(id: String) -> (r: CollectionId)
        ensures
            r.0@ == id@,
    {
        CollectionId(id)
    }

    /// The identifier that asks the service to allocate a new one.
    pub fn unique() -> (r: CollectionId)
        ensures
            r.0@ == UNIQUE_ID@,
    {
        CollectionId(UNIQUE_ID.to_owned())
    }

    /// The identifier as text.
    pub fn to_string(&self) -> (r: String)
        ensures
            r@ == self.0@,
    {
        self.0.clone()
    }
}

impl HasId for CollectionId {
    open spec fn id_view(&self) -> Seq<char> {
        self.0@
    }

    fn id(&self) -> (r: String) {
        self.0.clone()
    }
}

/// Identifier of a database.
#[derive(Debug, Clone, PartialEq, Eq, Default)]
pub struct DatabaseId(pub String);

impl DatabaseId {
    /// Wraps an identifier.
    pub fn new(id: String) -> (r: DatabaseId)
        ensures
            r.0@ == id@,
    {
        DatabaseId(id)
    }

    /// The identifier that asks the service to allocate a new one.
    pub fn unique() -> (r: DatabaseId)
        ensures
            r.0@ == UNIQUE_ID@,
    {
        DatabaseId(UNIQUE_ID.to_owned())
    }

    /// The identifier as text.
    pub fn to_string(&self) -> (r: String)
        ensures
            r@ == self.0@,
    {
        self.0.clone()
    }
}

impl HasId for DatabaseId {
    open spec fn id_view(&self) -> Seq<char> {
        self.0@
    }

    fn id(&self) -> (r: String) {
        self.0.clone()
    }
}

/// Identifier of a document.
#[derive(Debug, Clone, PartialEq, Eq, Default)]
pub struct DocumentId(pub String);

impl DocumentId {
    /// Wraps an identifier.
    pub fn new(id: String) -> (r: DocumentId)
        ensures
            r.0@ == id@,
    {
        DocumentId(id)
    }

    /// The identifier that asks the service to allocate a new one.
    pub fn unique() -> (r: DocumentId)
        ensures
            r.0@ == UNIQUE_ID@,
    {
        DocumentId(UNIQUE_ID.to_owned())
    }

    /// The identifier as text.
    pub fn to_string(&self) -> (r: String)
        ensures
            r@ == self.0@,
    {
        self.0.clone()
    }
}

impl HasId for DocumentId {
    open spec fn id_view(&self) -> Seq<char> {
        self.0@
    }

    fn id(&self) -> (r: String) {
        self.0.clone()
    }
}

/// Identifier of a function execution.
#[derive(Debug, Clone, PartialEq, Eq, Default)]
pub struct ExecutionId(pub String);

impl ExecutionId {
    /// Wraps an identifier.
    pub fn new(id: String) -> (r: ExecutionId)
        ensures
            r.0@ == id@,
    {
        ExecutionId(id)
    }

    /// The identifier as text.
    pub fn to_string(&self) -> (r: String)
        ensures
            r@ == self.0@,
    {
        self.0.clone()
    }
}

impl HasId for ExecutionId {
    open spec fn id_view(&self) -> Seq<char> {
        self.0@
    }

    fn id(&self) -> (r: String) {
        self.0.clone()
    }
}

/// Identifier of a stored file.
#[derive(Debug, Clone, PartialEq, Eq, Default)]
pub struct FileId(pub String);

impl FileId {
    /// Wraps an identifier.
    pub fn new(id: String) -> (r: FileId)
        ensures
            r.0@ == id@,
    {
        FileId(id)
    }

    /// The identifier that asks the service to allocate a new one.
    pub fn unique() -> (r: FileId)
        ensures
            r.0@ == UNIQUE_ID@,
    {
        FileId(UNIQUE_ID.to_owned())
    }

    /// The identifier as text.
    pub fn to_string(&self) -> (r: String)
        ensures
            r@ == self.0@,
    {
        self.0.clone()
    }
}

impl HasId for FileId {
    open spec fn id_view(&self) -> Seq<char> {
        self.0@
    }

    fn id(&self) -> (r: String) {
        self.0.clone()
    }
}

/// Identifier of a function.
#[derive(Debug, Clone, PartialEq, Eq, Default)]
pub struct FunctionId(pub String);

impl FunctionId {
    /// Wraps an identifier.
    pub fn new(id: String) -> (r: FunctionId)
        ensures
            r.0@ == id@,
    {
        FunctionId(id)
    }

    /// The identifier that asks the service to allocate a new one.
    pub fn unique() -> (r: FunctionId)
        ensures
            r.0@ == UNIQUE_ID@,
    {
        FunctionId(UNIQUE_ID.to_owned())
    }

    /// The identifier as text.
    pub fn to_string(&self) -> (r: String)
        ensures
            r@ == self.0@,
    {
        self.0.clone()
    }
}

impl HasId for FunctionId {
    open spec fn id_view(&self) -> Seq<char> {
        self.0@
    }

    fn id(&self) -> (r: String) {
        self.0.clone()
    }
}

/// Identifier of a team membership.
#[derive(Debug, Clone, PartialEq, Eq, Default)]
pub struct MembershipId(pub String);

impl MembershipId {
    /// Wraps an identifier.
    pub fn new(id: String) -> (r: MembershipId)
        ensures
            r.0@ == id@,
    {
        MembershipId(id)
    }

    /// The identifier as text.
    pub fn to_string(&self) -> (r: String)
        ensures
            r@ == self.0@,
    {
        self.0.clone()
    }
}

impl HasId for MembershipId {
    open spec fn id_view(&self) -> Seq<char> {
        self.0@
    }

    fn id(&self) -> (r: String) {
        self.0.clone()
    }
}

/// Identifier of a session.
#[derive(Debug, Clone, PartialEq, Eq, Default)]
pub struct SessionId(pub String);

impl SessionId {
    /// Wraps an identifier.
    pub fn new(id: String) -> (r: SessionId)
        ensures
            r.0@ == id@,
    {
        SessionId(id)
    }

    /// The identifier as text.
    pub fn to_string(&self) -> (r: String)
        ensures
            r@ == self.0@,
    {
        self.0.clone()
    }
}

impl HasId for SessionId {
    open spec fn id_view(&self) -> Seq<char> {
        self.0@
    }

    fn id(&self) -> (r: String) {
        self.0.clone()
    }
}

/// Identifier of a team.
#[derive(Debug, Clone, PartialEq, Eq, Default)]
pub struct TeamId(pub String);

impl TeamId {
    /// Wraps an identifier.
    pub fn new(id: String) -> (r: TeamId)
        ensures
            r.0@ == id@,
    {
        TeamId(id)
    }

    /// The identifier that asks the service to allocate a new one.
    pub fn unique() -> (r: TeamId)
        ensures
            r.0@ == UNIQUE_ID@,
    {
        TeamId(UNIQUE_ID.to_owned())
    }

    /// The identifier as text.
    pub fn to_string(&self) -> (r: String)
        ensures
            r@ == self.0@,
    {
        self.0.clone()
    }
}

impl HasId for TeamId {
    open spec fn id_view(&self) -> Seq<char> {
        self.0@
    }

    fn id(&self) -> (r: String) {
        self.0.clone()
    }
}

/// Identifier of a user.
#[derive(Debug, Clone, PartialEq, Eq, Default)]
pub struct UserId(pub String);

impl UserId {
    /// Wraps an identifier.
    pub fn new(id: String) -> (r: UserId)
        ensures
            r.0@ == id@,
    {
        UserId(id)
    }

    /// The identifier that asks the service to allocate a new one.
    pub fn unique() -> (r: UserId)
        ensures
            r.0@ == UNIQUE_ID@,
    {
        UserId(UNIQUE_ID.to_owned())
    }

    /// The identifier as text.
    pub fn to_string(&self) -> (r: String)
        ensures
            r@ == self.0@,
    {
        self.0.clone()
    }
}

impl HasId for UserId {
    open spec fn id_view(&self) -> Seq<char> {
        self.0@
    }

    fn id(&self) -> (r: String) {
        self.0.clone()
    }
}

/// Identifier of a function variable.
#[derive(Debug, Clone, PartialEq, Eq, Default)]
pub struct VariableId(pub String);

impl VariableId {
    /// Wraps an identifier.
    pub fn new(id: String) -> (r: VariableId)
        ensures
            r.0@ == id@,
    {
        VariableId(id)
    }

    /// The identifier that asks the service to allocate a new one.
    pub fn unique() -> (r: VariableId)
        ensures
            r.0@ == UNIQUE_ID@,
    {
        VariableId(UNIQUE_ID.to_owned())
    }

    /// The identifier as text.
    pub fn to_string(&self) -> (r: String)
        ensures
            r@ == self.0@,
    {
        self.0.clone()
    }
}

impl HasId for VariableId {
    open spec fn id_view(&self) -> Seq<char> {
        self.0@
    }

    fn id(&self) -> (r: String) {
        self.0.clone()
    }
}

/// Identifier of a function deployment.
#[derive(Debug, Clone, PartialEq, Eq, Default)]
pub struct DeploymentId(pub String);

impl DeploymentId {
    /// Wraps an identifier.
    pub fn new(id: String) -> (r: DeploymentId)
        ensures
            r.0@ == id@,
    {
        DeploymentId(id)
    }

    /// The identifier that asks the service to allocate a new one.
    pub fn unique() -> (r: DeploymentId)
        ensures
            r.0@ == UNIQUE_ID@,
    {
        DeploymentId(UNIQUE_ID.to_owned())
    }

    /// The identifier as text.
    pub fn to_string(&self) -> (r: String)
        ensures
            r@ == self.0@,
    {
        self.0.clone()
    }
}

impl HasId for DeploymentId {
    open spec fn id_view(&self) -> Seq<char> {
        self.0@
    }

    fn id(&self) -> (r: String) {
        self.0.clone()
    }
}

/// Identifier of a deployment build.
#[derive(Debug, Clone, PartialEq, Eq, Default)]
pub struct BuildId(pub String);

impl BuildId {
    /// Wraps an identifier.
    pub fn new(id: String) -> (r: BuildId)
        ensures
            r.0@ == id@,
    {
        BuildId(id)
    }

    /// The identifier that asks the service to allocate a new one.
    pub fn unique() -> (r: BuildId)
        ensures
            r.0@ == UNIQUE_ID@,
    {
        BuildId(UNIQUE_ID.to_owned())
    }

    /// The identifier as text.
    pub fn to_string(&self) -> (r: String)
        ensures
            r@ == self.0@,
    {
        self.0.clone()
    }
}

impl HasId for BuildId {
    open spec fn id_view(&self) -> Seq<char> {
        self.0@
    }

    fn id(&self) -> (r: String) {
        self.0.clone()
    }
}

} // verus!
