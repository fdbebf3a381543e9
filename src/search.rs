use vstd::prelude::*;

use crate::ids::HasId;
use crate::text::{owned, u64_text};
use crate::upload::{fields_view, opt_view};

verus! {

/// Which side of the cursor a page lies on.
#[derive(Debug, Clone, Copy, PartialEq, Eq, Structural)]
pub enum CursorDirection {
    Before,
    After,
}

/// Sort order.
#[derive(Debug, Clone, Copy, PartialEq, Eq, Structural)]
pub enum Order {
    Asc,
    Desc,
}

/// The text of a cursor direction.
pub open spec fn direction_text(d: CursorDirection) -> Seq<char> {
    match d {
        CursorDirection::Before => "before"@,
        CursorDirection::After => "after"@,
    }
}

/// The text of a sort order.
pub open spec fn order_text(o: Order) -> Seq<char> {
    match o {
        Order::Asc => "asc"@,
        Order::Desc => "desc"@,
    }
}

impl CursorDirection {
    /// The text of the direction.
    pub fn as_str(&self) -> (r: &'static str)
        ensures
            r@ == direction_text(*self),
    {
        match self {
            CursorDirection::Before => "before",
            CursorDirection::After => "after",
        }
    }
}

impl Order {
    /// The text of the order.
    pub fn as_str(&self) -> (r: &'static str)
        ensures
            r@ == order_text(*self),
    {
        match self {
            Order::Asc => "asc",
            Order::Desc => "desc",
        }
    }
}

/// A query parameter named `name` where there is a value, else none.
pub open spec fn opt_param(name: Seq<char>, value: Option<Seq<char>>) -> Seq<(Seq<char>, Seq<char>)> {
    match value {
        Some(v) => seq![(name, v)],
        None => Seq::empty(),
    }
}

/// An optional count as text.
pub open spec fn opt_count(v: Option<u64>) -> Option<Seq<char>> {
    match v {
        Some(n) => Some(crate::text::decimal(n as nat)),
        None => None,
    }
}

/// An optional identifier as text.
pub open spec fn opt_id<ID: HasId>(v: Option<ID>) -> Option<Seq<char>> {
    match v {
        Some(id) => Some(id.id_view()),
        None => None,
    }
}

/// An optional cursor direction as text.
pub open spec fn opt_direction(v: Option<CursorDirection>) -> Option<Seq<char>> {
    match v {
        Some(d) => Some(direction_text(d)),
        None => None,
    }
}

/// An optional sort order as text.
pub open spec fn opt_order(v: Option<Order>) -> Option<Seq<char>> {
    match v {
        Some(o) => Some(order_text(o)),
        None => None,
    }
}

/// Appends the parameter `name` where `value` is there.
fn push_param(params: &mut Vec<(String, String)>, name: &str, value: Option<String>)
    ensures
        fields_view(final(params)@) == fields_view(old(params)@) + opt_param(name@, opt_view(value)),
{
    let ghost prev = params@;
    match value {
        Some(v) => {
            let pair = (owned(name), v);
            let ghost gp = pair;
            params.push(pair);
            assert(fields_view(params@) =~= fields_view(prev) + seq![(gp.0@, gp.1@)]);
        },
        None => {
            assert(fields_view(params@) =~= fields_view(prev) + Seq::empty());
        },
    }
}

/// An optional count as text.
fn count_text(v: Option<u64>) -> (r: Option<String>)
    ensures
        opt_view(r) == opt_count(v),
{
    match v {
        Some(n) => Some(u64_text(n)),
        None => None,
    }
}

/// An optional identifier as text.
fn id_text<ID: HasId>(v: &Option<ID>) -> (r: Option<String>)
    ensures
        opt_view(r) == opt_id(*v),
{
    match v {
        Some(id) => Some(id.id()),
        None => None,
    }
}

/// An optional cursor direction as text.
fn direction_param(v: Option<CursorDirection>) -> (r: Option<String>)
    ensures
        opt_view(r) == opt_direction(v),
{
    match v {
        Some(d) => Some(owned(d.as_str())),
        None => None,
    }
}

/// An optional sort order as text.
fn order_param(v: Option<Order>) -> (r: Option<String>)
    ensures
        opt_view(r) == opt_order(v),
{
    match v {
        Some(o) => Some(owned(o.as_str())),
        None => None,
    }
}

/// Paging and search options of a listing.
#[derive(Debug, Clone, Default)]
pub struct SearchPayload<ID> {
    pub seatch: Option<String>,
    pub limit: Option<u64>,
    pub offset: Option<u64>,
    pub cursor: Option<ID>,
    pub cursor_direction: Option<CursorDirection>,
    pub order_type: Option<Order>,
}

/// Paging and ordering options of a document listing.
#[derive(Debug, Clone, Default)]
pub struct SearchQueryPayload<ID> {
    pub limit: Option<u64>,
    pub offset: Option<u64>,
    pub cursor: Option<ID>,
    pub cursor_direction: Option<CursorDirection>,
    pub order_attribute: Option<String>,
    pub order_type: Option<Order>,
}

impl<ID: HasId> SearchPayload<ID> {
    /// The query parameters: one per option that is set, named after the field, in field
    /// order.
    pub fn serialize_params(&self) -> (r: Vec<(String, String)>)
        ensures
            fields_view(r@) == opt_param("seatch"@, opt_view(self.seatch)) + opt_param(
                "limit"@,
                opt_count(self.limit),
            ) + opt_param("offset"@, opt_count(self.offset)) + opt_param(
                "cursor"@,
                opt_id(self.cursor),
            ) + opt_param("cursor_direction"@, opt_direction(self.cursor_direction))
                + opt_param("order_type"@, opt_order(self.order_type)),
    {
        let mut r: Vec<(String, String)> = Vec::new();
        assert(fields_view(r@) =~= Seq::empty());
        push_param(&mut r, "seatch", self.seatch.clone());
        push_param(&mut r, "limit", count_text(self.limit));
        push_param(&mut r, "offset", count_text(self.offset));
        push_param(&mut r, "cursor", id_text(&self.cursor));
        push_param(&mut r, "cursor_direction", direction_param(self.cursor_direction));
        push_param(&mut r, "order_type", order_param(self.order_type));
        r
    }
}

impl<ID: HasId> SearchQueryPayload<ID> {
    /// The query parameters: one per option that is set, named after the field, in field
    /// order.
    pub fn serialize_params(&self) -> (r: Vec<(String, String)>)
        ensures
            fields_view(r@) == opt_param("limit"@, opt_count(self.limit)) + opt_param(
                "offset"@,
                opt_count(self.offset),
            ) + opt_param("cursor"@, opt_id(self.cursor)) + opt_param(
                "cursor_direction"@,
                opt_direction(self.cursor_direction),
            ) + opt_param("order_attribute"@, opt_view(self.order_attribute)) + opt_param(
                "order_type"@,
                opt_order(self.order_type),
            ),
    {
        let mut r: Vec<(String, String)> = Vec::new();
        assert(fields_view(r@) =~= Seq::empty());
        push_param(&mut r, "limit", count_text(self.limit));
        push_param(&mut r, "offset", count_text(self.offset));
        push_param(&mut r, "cursor", id_text(&self.cursor));
        push_param(&mut r, "cursor_direction", direction_param(self.cursor_direction));
        push_param(&mut r, "order_attribute", self.order_attribute.clone());
        push_param(&mut r, "order_type", order_param(self.order_type));
        r
    }
}

} // verus!
