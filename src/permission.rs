use vstd::prelude::*;

use crate::ids::{MembershipId, TeamId, UserId};
use crate::text::{
    after_char, before_char, join, lacks_char, lemma_after_char_shorter, lemma_lacks_char_append,
    lemma_split_at_separator, lemma_split_without_separator, lemma_trim_untouched, owned,
    same_text, split_once_char, trim_char, trim_end, trim_end_char, trim_start,
};

verus! {

/// Whether a user's e-mail or phone has been verified.
#[derive(Debug, Clone, Copy, PartialEq, Eq, Structural)]
pub enum UserStatus {
    Verified,
    Unverified,
}

/// Who a permission is granted to.
#[derive(Debug)]
pub enum Role {
    Any,
    User((UserId, Option<UserStatus>)),
    Users(Option<UserStatus>),
    Guests,
    Team((TeamId, Option<Box<Role>>)),
    Member(MembershipId),
}

/// A role with its identifiers as characters.
pub enum RoleView {
    Any,
    User(Seq<char>, Option<UserStatus>),
    Users(Option<UserStatus>),
    Guests,
    Team(Seq<char>, Option<Box<RoleView>>),
    Member(Seq<char>),
}

/// An action that a permission allows, and to whom.
#[derive(Debug)]
pub enum Permission {
    Read(Role),
    Write(Role),
    Create(Role),
    Delete(Role),
    Update(Role),
}

/// A permission with its role as characters.
pub enum PermissionView {
    Read(RoleView),
    Write(RoleView),
    Create(RoleView),
    Delete(RoleView),
    Update(RoleView),
}

/// The text of a status.
pub open spec fn status_text(s: UserStatus) -> Seq<char> {
    match s {
        UserStatus::Verified => "verified"@,
        UserStatus::Unverified => "unverified"@,
    }
}

/// The suffix that a role carries for an optional status.
pub open spec fn status_suffix(s: Option<UserStatus>) -> Seq<char> {
    match s {
        Some(st) => "/"@ + status_text(st),
        None => Seq::empty(),
    }
}

/// The wire text of a role: `any`, `user:ID[/STATUS]`, `users[/STATUS]`, `guests`,
/// `team:ID[/ROLE]` or `member:ID`.
pub open spec fn role_text(r: RoleView) -> Seq<char>
    decreases r,
{
    match r {
        RoleView::Any => "any"@,
        RoleView::User(id, st) => "user:"@ + id + status_suffix(st),
        RoleView::Users(st) => "users"@ + status_suffix(st),
        RoleView::Guests => "guests"@,
        RoleView::Team(id, sub) => match sub {
            Some(b) => "team:"@ + id + "/"@ + role_text(*b),
            None => "team:"@ + id,
        },
        RoleView::Member(id) => "member:"@ + id,
    }
}

/// The status that a role's suffix names; any other text names none.
pub open spec fn parse_status(s: Seq<char>) -> Option<UserStatus> {
    if s == "verified"@ {
        Some(UserStatus::Verified)
    } else if s == "unverified"@ {
        Some(UserStatus::Unverified)
    } else {
        None
    }
}

/// Reads a role: the kind before the first `:` (double quotes around it dropped), then what
/// that kind needs after the `:`. A team's sub-role follows the first `/` after its identifier.
pub open spec fn parse_role(s: Seq<char>) -> Option<RoleView>
    decreases s.len(),
{
    let kind = trim_end(trim_start(before_char(s, ':'), '"'), '"');
    let rest = after_char(s, ':');
    if kind == "any"@ {
        Some(RoleView::Any)
    } else if kind == "user"@ {
        match rest {
            Some(id) => Some(
                RoleView::User(
                    before_char(id, '/'),
                    match after_char(id, '/') {
                        Some(st) => parse_status(st),
                        None => None,
                    },
                ),
            ),
            None => None,
        }
    } else if kind == "users"@ {
        Some(RoleView::Users(None))
    } else if kind == "users/verified"@ {
        Some(RoleView::Users(Some(UserStatus::Verified)))
    } else if kind == "users/unverified"@ {
        Some(RoleView::Users(Some(UserStatus::Unverified)))
    } else if kind == "guests"@ {
        Some(RoleView::Guests)
    } else if kind == "team"@ {
        match rest {
            Some(id) => match after_char(id, '/') {
                Some(sub) => {
                    proof {
                        lemma_after_char_shorter(s, ':');
                        lemma_after_char_shorter(id, '/');
                    }
                    match parse_role(sub) {
                        Some(r) => Some(RoleView::Team(before_char(id, '/'), Some(Box::new(r)))),
                        None => None,
                    }
                },
                None => Some(RoleView::Team(before_char(id, '/'), None)),
            },
            None => None,
        }
    } else if kind == "member"@ {
        match rest {
            Some(id) => Some(RoleView::Member(id)),
            None => None,
        }
    } else {
        None
    }
}

/// The wire text of a permission: the action, then the role in double quotes between
/// parentheses, as in `read("any")`.
pub open spec fn permission_text(p: PermissionView) -> Seq<char> {
    match p {
        PermissionView::Read(r) => "read(\""@ + role_text(r) + "\")"@,
        PermissionView::Write(r) => "write(\""@ + role_text(r) + "\")"@,
        PermissionView::Create(r) => "create(\""@ + role_text(r) + "\")"@,
        PermissionView::Delete(r) => "delete(\""@ + role_text(r) + "\")"@,
        PermissionView::Update(r) => "update(\""@ + role_text(r) + "\")"@,
    }
}

/// Reads a permission: the action before the one `(`, and the role after it with the closing
/// parentheses at its end dropped.
pub open spec fn parse_permission(s: Seq<char>) -> Option<PermissionView> {
    let action = before_char(s, '(');
    match after_char(s, '(') {
        Some(t) => if after_char(t, '(') is Some {
            None
        } else {
            match parse_role(trim_end(t, ')')) {
                Some(r) => if action == "read"@ {
                    Some(PermissionView::Read(r))
                } else if action == "write"@ {
                    Some(PermissionView::Write(r))
                } else if action == "create"@ {
                    Some(PermissionView::Create(r))
                } else if action == "delete"@ {
                    Some(PermissionView::Delete(r))
                } else if action == "update"@ {
                    Some(PermissionView::Update(r))
                } else {
                    None
                },
                None => None,
            }
        },
        None => None,
    }
}

impl UserStatus {
    /// The text of the status.
    pub fn as_str(&self) -> (r: &'static str)
        ensures
            r@ == status_text(*self),
    {
        match self {
            UserStatus::Verified => "verified",
            UserStatus::Unverified => "unverified",
        }
    }

    /// The text of the status.
    pub fn to_string(&self) -> (r: String)
        ensures
            r@ == status_text(*self),
    {
        owned(self.as_str())
    }

    /// The status that `s` names, if any.
    pub fn parse(s: &str) -> (r: Option<UserStatus>)
        ensures
            r == parse_status(s@),
    {
        if same_text(s, "verified") {
            Some(UserStatus::Verified)
        } else if same_text(s, "unverified") {
            Some(UserStatus::Unverified)
        } else {
            None
        }
    }
}

/// The suffix that a role carries for an optional status.
fn suffix_text(s: &Option<UserStatus>) -> (r: String)
    ensures
        r@ == status_suffix(*s),
{
    match s {
        Some(st) => join(owned("/"), st.as_str()),
        None => String::new(),
    }
}

impl Role {
    /// The role with its identifiers as characters.
    pub open spec fn view(&self) -> RoleView
        decreases self,
    {
        match self {
            Role::Any => RoleView::Any,
            Role::User((id, st)) => RoleView::User(id.0@, *st),
            Role::Users(st) => RoleView::Users(*st),
            Role::Guests => RoleView::Guests,
            Role::Team((id, sub)) => RoleView::Team(
                id.0@,
                match sub {
                    Some(b) => Some(Box::new(b.view())),
                    None => None,
                },
            ),
            Role::Member(id) => RoleView::Member(id.0@),
        }
    }

    /// The wire text of the role.
    pub fn to_string(&self) -> (r: String)
        ensures
            r@ == role_text(self.view()),
        decreases self,
    {
        match self {
            Role::Any => owned("any"),
            Role::User((id, st)) => {
                let r = join(owned("user:"), id.0.as_str());
                join(r, suffix_text(st).as_str())
            },
            Role::Users(st) => join(owned("users"), suffix_text(st).as_str()),
            Role::Guests => owned("guests"),
            Role::Team((id, sub)) => {
                let r = join(owned("team:"), id.0.as_str());
                match sub {
                    Some(b) => {
                        let inner = b.to_string();
                        join(join(r, "/"), inner.as_str())
                    },
                    None => r,
                }
            },
            Role::Member(id) => join(owned("member:"), id.0.as_str()),
        }
    }

    /// Reads a role from its wire text; `Err` where the text names none.
    pub fn parse(s: &str) -> (r: Result<Role, ()>)
        ensures
            match r {
                Ok(role) => parse_role(s@) == Some(role.view()),
                Err(_) => parse_role(s@) is None,
            },
        decreases s@.len(),
    {
        let (head, rest) = split_once_char(s, ':');
        let kind = trim_char(head, '"');
        if same_text(kind, "any") {
            Ok(Role::Any)
        } else if same_text(kind, "user") {
            match rest {
                Some(id) => {
                    let (user_id, status) = split_once_char(id, '/');
                    let status = match status {
                        Some(t) => UserStatus::parse(t),
                        None => None,
                    };
                    Ok(Role::User((UserId::new(owned(user_id)), status)))
                },
                None => Err(()),
            }
        } else if same_text(kind, "users") {
            Ok(Role::Users(None))
        } else if same_text(kind, "users/verified") {
            Ok(Role::Users(Some(UserStatus::Verified)))
        } else if same_text(kind, "users/unverified") {
            Ok(Role::Users(Some(UserStatus::Unverified)))
        } else if same_text(kind, "guests") {
            Ok(Role::Guests)
        } else if same_text(kind, "team") {
            match rest {
                Some(id) => {
                    let (team_id, sub) = split_once_char(id, '/');
                    match sub {
                        Some(t) => {
                            proof {
                                lemma_after_char_shorter(s@, ':');
                                lemma_after_char_shorter(id@, '/');
                            }
                            match Role::parse(t) {
                                Ok(role) => Ok(
                                    Role::Team((TeamId::new(owned(team_id)), Some(Box::new(role)))),
                                ),
                                Err(_) => Err(()),
                            }
                        },
                        None => Ok(Role::Team((TeamId::new(owned(team_id)), None))),
                    }
                },
                None => Err(()),
            }
        } else if same_text(kind, "member") {
            match rest {
                Some(id) => Ok(Role::Member(MembershipId::new(owned(id)))),
                None => Err(()),
            }
        } else {
            Err(())
        }
    }
}

impl Permission {
    /// The permission with its role as characters.
    pub open spec fn view(&self) -> PermissionView {
        match self {
            Permission::Read(r) => PermissionView::Read(r.view()),
            Permission::Write(r) => PermissionView::Write(r.view()),
            Permission::Create(r) => PermissionView::Create(r.view()),
            Permission::Delete(r) => PermissionView::Delete(r.view()),
            Permission::Update(r) => PermissionView::Update(r.view()),
        }
    }

    /// The wire text of the permission, as in `read("any")`.
    pub fn to_string(&self) -> (r: String)
        ensures
            r@ == permission_text(self.view()),
    {
        let (action, role) = match self {
            Permission::Read(r) => ("read(\"", r),
            Permission::Write(r) => ("write(\"", r),
            Permission::Create(r) => ("create(\"", r),
            Permission::Delete(r) => ("delete(\"", r),
            Permission::Update(r) => ("update(\"", r),
        };
        join(join(owned(action), role.to_string().as_str()), "\")")
    }

    /// Reads a permission from its wire text; `Err` where the text holds no `(`, more than
    /// one, an unknown action or a role that cannot be read.
    pub fn parse(s: &str) -> (r: Result<Permission, ()>)
        ensures
            match r {
                Ok(p) => parse_permission(s@) == Some(p.view()),
                Err(_) => parse_permission(s@) is None,
            },
    {
        let (action, rest) = split_once_char(s, '(');
        let t = match rest {
            Some(t) => t,
            None => return Err(()),
        };
        let (_, again) = split_once_char(t, '(');
        if again.is_some() {
            return Err(());
        }
        let role = match Role::parse(trim_end_char(t, ')')) {
            Ok(role) => role,
            Err(_) => return Err(()),
        };
        if same_text(action, "read") {
            Ok(Permission::Read(role))
        } else if same_text(action, "write") {
            Ok(Permission::Write(role))
        } else if same_text(action, "create") {
            Ok(Permission::Create(role))
        } else if same_text(action, "delete") {
            Ok(Permission::Delete(role))
        } else if same_text(action, "update") {
            Ok(Permission::Update(role))
        } else {
            Err(())
        }
    }
}

/// Whether two optional statuses are the same.
fn same_status(a: &Option<UserStatus>, b: &Option<UserStatus>) -> (r: bool)
    ensures
        r == (*a == *b),
{
    match (a, b) {
        (Some(x), Some(y)) => *x == *y,
        (None, None) => true,
        _ => false,
    }
}

/// Whether two roles are the same role.
fn same_role(a: &Role, b: &Role) -> (r: bool)
    ensures
        r == (a.view() == b.view()),
    decreases a,
{
    match (a, b) {
        (Role::Any, Role::Any) => true,
        (Role::User((x, s)), Role::User((y, t))) => same_text(x.0.as_str(), y.0.as_str())
            && same_status(s, t),
        (Role::Users(s), Role::Users(t)) => same_status(s, t),
        (Role::Guests, Role::Guests) => true,
        (Role::Team((x, p)), Role::Team((y, q))) => {
            if !same_text(x.0.as_str(), y.0.as_str()) {
                false
            } else {
                match (p, q) {
                    (Some(p), Some(q)) => same_role(p, q),
                    (None, None) => true,
                    _ => false,
                }
            }
        },
        (Role::Member(x), Role::Member(y)) => same_text(x.0.as_str(), y.0.as_str()),
        _ => false,
    }
}

/// A copy of a role.
fn copy_role(a: &Role) -> (r: Role)
    ensures
        r.view() == a.view(),
    decreases a,
{
    match a {
        Role::Any => Role::Any,
        Role::User((id, st)) => Role::User((UserId::new(id.0.clone()), *st)),
        Role::Users(st) => Role::Users(*st),
        Role::Guests => Role::Guests,
        Role::Team((id, sub)) => {
            let sub = match sub {
                Some(b) => Some(Box::new(copy_role(b))),
                None => None,
            };
            Role::Team((TeamId::new(id.0.clone()), sub))
        },
        Role::Member(id) => Role::Member(MembershipId::new(id.0.clone())),
    }
}

impl PartialEq for Role {
    fn eq(&self, other: &Role) -> (r: bool) {
        same_role(self, other)
    }
}

impl vstd::std_specs::cmp::PartialEqSpecImpl for Role {
    open spec fn obeys_eq_spec() -> bool {
        true
    }

    open spec fn eq_spec(&self, other: &Role) -> bool {
        self.view() == other.view()
    }
}

impl Eq for Role {}

impl Clone for Role {
    fn clone(&self) -> (r: Role)
        ensures
            r.view() == self.view(),
    {
        copy_role(self)
    }
}

/// A copy of a permission.
fn copy_permission(a: &Permission) -> (r: Permission)
    ensures
        r.view() == a.view(),
{
    match a {
        Permission::Read(r) => Permission::Read(copy_role(r)),
        Permission::Write(r) => Permission::Write(copy_role(r)),
        Permission::Create(r) => Permission::Create(copy_role(r)),
        Permission::Delete(r) => Permission::Delete(copy_role(r)),
        Permission::Update(r) => Permission::Update(copy_role(r)),
    }
}

impl PartialEq for Permission {
    fn eq(&self, other: &Permission) -> (r: bool) {
        match (self, other) {
            (Permission::Read(a), Permission::Read(b)) => same_role(a, b),
            (Permission::Write(a), Permission::Write(b)) => same_role(a, b),
            (Permission::Create(a), Permission::Create(b)) => same_role(a, b),
            (Permission::Delete(a), Permission::Delete(b)) => same_role(a, b),
            (Permission::Update(a), Permission::Update(b)) => same_role(a, b),
            _ => false,
        }
    }
}

impl vstd::std_specs::cmp::PartialEqSpecImpl for Permission {
    open spec fn obeys_eq_spec() -> bool {
        true
    }

    open spec fn eq_spec(&self, other: &Permission) -> bool {
        self.view() == other.view()
    }
}

impl Eq for Permission {}

impl Clone for Permission {
    fn clone(&self) -> (r: Permission)
        ensures
            r.view() == self.view(),
    {
        copy_permission(self)
    }
}

/// Whether the user and team identifiers of a role hold no `/`, so that its text splits back
/// into them.
pub open spec fn role_ids_plain(r: RoleView) -> bool
    decreases r,
{
    match r {
        RoleView::User(id, _) => lacks_char(id, '/'),
        RoleView::Team(id, sub) => lacks_char(id, '/') && match sub {
            Some(b) => role_ids_plain(*b),
            None => true,
        },
        _ => true,
    }
}

/// Reading the text of a role gives the role back, where its user and team identifiers hold
/// no `/`.
pub proof fn lemma_role_text_round_trip(r: RoleView)
    requires
        role_ids_plain(r),
    ensures
        parse_role(role_text(r)) == Some(r),
    decreases r,
{
    reveal_strlit("any");
    reveal_strlit("user");
    reveal_strlit("user:");
    reveal_strlit("users");
    reveal_strlit("users/verified");
    reveal_strlit("users/unverified");
    reveal_strlit("guests");
    reveal_strlit("team");
    reveal_strlit("team:");
    reveal_strlit("member");
    reveal_strlit("member:");
    reveal_strlit("/");
    reveal_strlit("verified");
    reveal_strlit("unverified");
    let s = role_text(r);
    match r {
        RoleView::Any => {
            assert(lacks_char("any"@, ':'));
            lemma_split_without_separator(s, ':');
            lemma_trim_untouched(s, '"');
        },
        RoleView::User(id, st) => {
            let rest = id + status_suffix(st);
            assert(s =~= "user"@ + seq![':'] + rest);
            assert(lacks_char("user"@, ':'));
            lemma_split_at_separator("user"@, rest, ':');
            lemma_trim_untouched("user"@, '"');
            match st {
                Some(v) => {
                    assert(rest =~= id + seq!['/'] + status_text(v));
                    lemma_split_at_separator(id, status_text(v), '/');
                },
                None => {
                    assert(rest =~= id);
                    lemma_split_without_separator(id, '/');
                },
            }
        },
        RoleView::Users(st) => {
            assert(lacks_char(s, ':')) by {
                assert(lacks_char("users"@, ':'));
                match st {
                    Some(v) => {
                        assert(lacks_char("/"@, ':'));
                        assert(lacks_char(status_text(v), ':'));
                        lemma_lacks_char_append("/"@, status_text(v), ':');
                        lemma_lacks_char_append("users"@, status_suffix(st), ':');
                    },
                    None => {
                        assert(s =~= "users"@);
                    },
                }
            }
            lemma_split_without_separator(s, ':');
            match st {
                Some(UserStatus::Verified) => assert(s =~= "users/verified"@),
                Some(UserStatus::Unverified) => assert(s =~= "users/unverified"@),
                None => assert(s =~= "users"@),
            }
            lemma_trim_untouched(s, '"');
        },
        RoleView::Guests => {
            assert(lacks_char("guests"@, ':'));
            lemma_split_without_separator(s, ':');
            lemma_trim_untouched(s, '"');
        },
        RoleView::Team(id, sub) => {
            assert(lacks_char("team"@, ':'));
            lemma_trim_untouched("team"@, '"');
            match sub {
                Some(b) => {
                    let inner = role_text(*b);
                    let rest = id + seq!['/'] + inner;
                    assert(s =~= "team"@ + seq![':'] + rest);
                    lemma_split_at_separator("team"@, rest, ':');
                    lemma_split_at_separator(id, inner, '/');
                    lemma_role_text_round_trip(*b);
                },
                None => {
                    assert(s =~= "team"@ + seq![':'] + id);
                    lemma_split_at_separator("team"@, id, ':');
                    lemma_split_without_separator(id, '/');
                },
            }
        },
        RoleView::Member(id) => {
            assert(s =~= "member"@ + seq![':'] + id);
            assert(lacks_char("member"@, ':'));
            lemma_split_at_separator("member"@, id, ':');
            lemma_trim_untouched("member"@, '"');
        },
    }
}

} // verus!
