use vstd::prelude::*;

use crate::ids::DocumentId;
use crate::text::{decimal, i64_text, join, owned, quote_text, quoted, signed_decimal, u64_text};

verus! {

/// An attribute name in a query, in double quotes.
#[derive(Debug, Clone)]
pub struct QueryAttr(String);

/// A query value: a bracketed, comma-separated list.
#[derive(Debug, Clone)]
pub struct QueryValue(String);

/// `items` separated by commas.
pub open spec fn comma_list(items: Seq<Seq<char>>) -> Seq<char>
    decreases items.len(),
{
    if items.len() == 0 {
        Seq::empty()
    } else if items.len() == 1 {
        items[0]
    } else {
        comma_list(items.drop_last()) + ","@ + items.last()
    }
}

/// `s` in square brackets.
pub open spec fn bracketed(s: Seq<char>) -> Seq<char> {
    "["@ + s + "]"@
}

/// A number that a query can compare against.
pub trait Primitive {
    /// The number's text.
    spec fn text(&self) -> Seq<char>;

    /// The number's text.
    fn render(&self) -> (r: String)
        ensures
            r@ == self.text(),
    ;
}

impl Primitive for u8 {
    open spec fn text(&self) -> Seq<char> {
        decimal(*self as nat)
    }

    fn render(&self) -> (r: String) {
        u64_text(*self as u64)
    }
}

impl Primitive for u16 {
    open spec fn text(&self) -> Seq<char> {
        decimal(*self as nat)
    }

    fn render(&self) -> (r: String) {
        u64_text(*self as u64)
    }
}

impl Primitive for u32 {
    open spec fn text(&self) -> Seq<char> {
        decimal(*self as nat)
    }

    fn render(&self) -> (r: String) {
        u64_text(*self as u64)
    }
}

impl Primitive for u64 {
    open spec fn text(&self) -> Seq<char> {
        decimal(*self as nat)
    }

    fn render(&self) -> (r: String) {
        u64_text(*self as u64)
    }
}

impl Primitive for i8 {
    open spec fn text(&self) -> Seq<char> {
        signed_decimal(*self as int)
    }

    fn render(&self) -> (r: String) {
        i64_text(*self as i64)
    }
}

impl Primitive for i16 {
    open spec fn text(&self) -> Seq<char> {
        signed_decimal(*self as int)
    }

    fn render(&self) -> (r: String) {
        i64_text(*self as i64)
    }
}

impl Primitive for i32 {
    open spec fn text(&self) -> Seq<char> {
        signed_decimal(*self as int)
    }

    fn render(&self) -> (r: String) {
        i64_text(*self as i64)
    }
}

impl Primitive for i64 {
    open spec fn text(&self) -> Seq<char> {
        signed_decimal(*self as int)
    }

    fn render(&self) -> (r: String) {
        i64_text(*self as i64)
    }
}

impl QueryAttr {
    /// The attribute's text, quotes included.
    pub closed spec fn spec_text(&self) -> Seq<char> {
        self.0@
    }

    /// The attribute named `attr`.
    pub fn new(attr: &str) -> (r: QueryAttr)
        ensures
            r.spec_text() == quoted(attr@),
    {
        QueryAttr(quote_text(attr))
    }

    /// The attribute's text, quotes included.
    pub fn to_string(&self) -> (r: String)
        ensures
            r@ == self.spec_text(),
    {
        self.0.clone()
    }
}

impl QueryValue {
    /// The value's text.
    pub closed spec fn spec_text(&self) -> Seq<char> {
        self.0@
    }

    /// A list of one string.
    pub fn new_string(value: &str) -> (r: QueryValue)
        ensures
            r.spec_text() == bracketed(quoted(value@)),
    {
        QueryValue(join(join(owned("["), quote_text(value).as_str()), "]"))
    }

    /// A list of one number.
    pub fn new_primitive<P: Primitive>(value: P) -> (r: QueryValue)
        ensures
            r.spec_text() == bracketed(value.text()),
    {
        QueryValue(join(join(owned("["), value.render().as_str()), "]"))
    }

    /// A list of numbers.
    pub fn new_primitive_array<P: Primitive>(value: &[P]) -> (r: QueryValue)
        ensures
            r.spec_text() == bracketed(comma_list(value@.map_values(|p: P| p.text()))),
    {
        let mut s = owned("[");
        let mut i: usize = 0;
        while i < value.len()
            invariant
                i <= value@.len(),
                s@ == "["@ + comma_list(value@.subrange(0, i as int).map_values(|p: P| p.text())),
            decreases value@.len() - i,
        {
            let ghost prev = value@.subrange(0, i as int).map_values(|p: P| p.text());
            let ghost next = value@.subrange(0, i + 1).map_values(|p: P| p.text());
            assert(next.drop_last() =~= prev);
            if i > 0 {
                s = join(s, ",");
            }
            s = join(s, value[i].render().as_str());
            assert(s@ =~= "["@ + comma_list(next));
            i = i + 1;
        }
        assert(value@.subrange(0, value@.len() as int) =~= value@);
        QueryValue(join(s, "]"))
    }

    /// A list of strings.
    pub fn new_string_array(value: &[String]) -> (r: QueryValue)
        ensures
            r.spec_text() == bracketed(comma_list(value@.map_values(|v: String| quoted(v@)))),
    {
        let mut s = owned("[");
        let mut i: usize = 0;
        while i < value.len()
            invariant
                i <= value@.len(),
                s@ == "["@ + comma_list(value@.subrange(0, i as int).map_values(|v: String| quoted(v@))),
            decreases value@.len() - i,
        {
            let ghost prev = value@.subrange(0, i as int).map_values(|v: String| quoted(v@));
            let ghost next = value@.subrange(0, i + 1).map_values(|v: String| quoted(v@));
            assert(next.drop_last() =~= prev);
            if i > 0 {
                s = join(s, ",");
            }
            s = join(s, quote_text(value[i].as_str()).as_str());
            assert(s@ =~= "["@ + comma_list(next));
            i = i + 1;
        }
        assert(value@.subrange(0, value@.len() as int) =~= value@);
        QueryValue(join(s, "]"))
    }

    /// The value's text.
    pub fn to_string(&self) -> (r: String)
        ensures
            r@ == self.spec_text(),
    {
        self.0.clone()
    }
}

/// A condition, order, page bound or cursor of a document listing.
#[derive(Debug, Clone)]
pub enum Query {
    Equal(QueryAttr, QueryValue),
    NotEqual(QueryAttr, QueryValue),
    LessThan(QueryAttr, QueryValue),
    LessThanEqual(QueryAttr, QueryValue),
    GreaterThan(QueryAttr, QueryValue),
    GreaterThanEqual(QueryAttr, QueryValue),
    Search(QueryAttr, QueryValue),
    OrderDesc(QueryAttr),
    OrderAsc(QueryAttr),
    Limit(u32),
    Offset(u32),
    CursorAfter(DocumentId),
    CursorBefore(DocumentId),
}

/// The text of a query that applies `op` to an attribute and a value.
pub open spec fn compare_text(op: Seq<char>, attr: Seq<char>, value: Seq<char>) -> Seq<char> {
    op + "("@ + attr + ","@ + value + ")"@
}

/// The text of a query that applies `op` to one argument.
pub open spec fn call_text(op: Seq<char>, arg: Seq<char>) -> Seq<char> {
    op + "("@ + arg + ")"@
}

impl Query {
    /// The query's wire text, such as `equal("name",["a"])` or `limit(25)`.
    pub open spec fn spec_text(&self) -> Seq<char> {
        match self {
            Query::Equal(a, v) => compare_text("equal"@, a.spec_text(), v.spec_text()),
            Query::NotEqual(a, v) => compare_text("notEqual"@, a.spec_text(), v.spec_text()),
            Query::LessThan(a, v) => compare_text("lessThan"@, a.spec_text(), v.spec_text()),
            Query::LessThanEqual(a, v) => compare_text("lessThanEqual"@, a.spec_text(), v.spec_text()),
            Query::GreaterThan(a, v) => compare_text("greaterThan"@, a.spec_text(), v.spec_text()),
            Query::GreaterThanEqual(a, v) => compare_text("greaterThanEqual"@, a.spec_text(), v.spec_text()),
            Query::Search(a, v) => compare_text("search"@, a.spec_text(), v.spec_text()),
            Query::OrderDesc(a) => call_text("orderDesc"@, a.spec_text()),
            Query::OrderAsc(a) => call_text("orderAsc"@, a.spec_text()),
            Query::Limit(n) => call_text("limit"@, decimal(*n as nat)),
            Query::Offset(n) => call_text("offset"@, decimal(*n as nat)),
            Query::CursorAfter(id) => call_text("cursorAfter"@, quoted(id.0@)),
            Query::CursorBefore(id) => call_text("cursorBefore"@, quoted(id.0@)),
        }
    }

    /// The query's wire text.
    pub fn to_string(&self) -> (r: String)
        ensures
            r@ == self.spec_text(),
    {
        let (op, arg, value) = match self {
            Query::Equal(a, v) => ("equal", a.to_string(), Some(v.to_string())),
            Query::NotEqual(a, v) => ("notEqual", a.to_string(), Some(v.to_string())),
            Query::LessThan(a, v) => ("lessThan", a.to_string(), Some(v.to_string())),
            Query::LessThanEqual(a, v) => ("lessThanEqual", a.to_string(), Some(v.to_string())),
            Query::GreaterThan(a, v) => ("greaterThan", a.to_string(), Some(v.to_string())),
            Query::GreaterThanEqual(a, v) => ("greaterThanEqual", a.to_string(), Some(v.to_string())),
            Query::Search(a, v) => ("search", a.to_string(), Some(v.to_string())),
            Query::OrderDesc(a) => ("orderDesc", a.to_string(), None),
            Query::OrderAsc(a) => ("orderAsc", a.to_string(), None),
            Query::Limit(n) => ("limit", u64_text(*n as u64), None),
            Query::Offset(n) => ("offset", u64_text(*n as u64), None),
            Query::CursorAfter(id) => ("cursorAfter", quote_text(id.0.as_str()), None),
            Query::CursorBefore(id) => ("cursorBefore", quote_text(id.0.as_str()), None),
        };
        let s = join(join(owned(op), "("), arg.as_str());
        let s = match value {
            Some(v) => join(join(s, ","), v.as_str()),
            None => s,
        };
        join(s, ")")
    }
}

/// Builds queries on the attribute that a name stands for.
pub trait QueryExt {
    /// The attribute's name.
    spec fn attr_name(&self) -> Seq<char>;

    /// `equal` of the attribute and `v`.
    fn equal(&self, v: QueryValue) -> (r: Query)
        ensures
            r is Equal,
            r.spec_text() == compare_text("equal"@, quoted(self.attr_name()), v.spec_text()),
    ;

    /// `notEqual` of the attribute and `v`.
    fn not_equal(&self, v: QueryValue) -> (r: Query)
        ensures
            r is NotEqual,
            r.spec_text() == compare_text("notEqual"@, quoted(self.attr_name()), v.spec_text()),
    ;

    /// `lessThan` of the attribute and `v`.
    fn less_than(&self, v: QueryValue) -> (r: Query)
        ensures
            r is LessThan,
            r.spec_text() == compare_text("lessThan"@, quoted(self.attr_name()), v.spec_text()),
    ;

    /// `lessThanEqual` of the attribute and `v`.
    fn less_than_equal(&self, v: QueryValue) -> (r: Query)
        ensures
            r is LessThanEqual,
            r.spec_text() == compare_text("lessThanEqual"@, quoted(self.attr_name()), v.spec_text()),
    ;

    /// `greaterThan` of the attribute and `v`.
    fn greater_than(&self, v: QueryValue) -> (r: Query)
        ensures
            r is GreaterThan,
            r.spec_text() == compare_text("greaterThan"@, quoted(self.attr_name()), v.spec_text()),
    ;

    /// `greaterThanEqual` of the attribute and `v`.
    fn greater_than_equal(&self, v: QueryValue) -> (r: Query)
        ensures
            r is GreaterThanEqual,
            r.spec_text() == compare_text("greaterThanEqual"@, quoted(self.attr_name()), v.spec_text()),
    ;

    /// `search` of the attribute and `v`.
    fn search(&self, v: QueryValue) -> (r: Query)
        ensures
            r is Search,
            r.spec_text() == compare_text("search"@, quoted(self.attr_name()), v.spec_text()),
    ;

    /// `orderDesc` of the attribute.
    fn order_desc(&self) -> (r: Query)
        ensures
            r is OrderDesc,
            r.spec_text() == call_text("orderDesc"@, quoted(self.attr_name())),
    ;

    /// `orderAsc` of the attribute.
    fn order_asc(&self) -> (r: Query)
        ensures
            r is OrderAsc,
            r.spec_text() == call_text("orderAsc"@, quoted(self.attr_name())),
    ;
}

impl QueryExt for String {
    open spec fn attr_name(&self) -> Seq<char> {
        self@
    }

    fn equal(&self, v: QueryValue) -> (r: Query) {
        Query::Equal(QueryAttr::new(self.as_str()), v)
    }

    fn not_equal(&self, v: QueryValue) -> (r: Query) {
        Query::NotEqual(QueryAttr::new(self.as_str()), v)
    }

    fn less_than(&self, v: QueryValue) -> (r: Query) {
        Query::LessThan(QueryAttr::new(self.as_str()), v)
    }

    fn less_than_equal(&self, v: QueryValue) -> (r: Query) {
        Query::LessThanEqual(QueryAttr::new(self.as_str()), v)
    }

    fn greater_than(&self, v: QueryValue) -> (r: Query) {
        Query::GreaterThan(QueryAttr::new(self.as_str()), v)
    }

    fn greater_than_equal(&self, v: QueryValue) -> (r: Query) {
        Query::GreaterThanEqual(QueryAttr::new(self.as_str()), v)
    }

    fn search(&self, v: QueryValue) -> (r: Query) {
        Query::Search(QueryAttr::new(self.as_str()), v)
    }

    fn order_desc(&self) -> (r: Query) {
        Query::OrderDesc(QueryAttr::new(self.as_str()))
    }

    fn order_asc(&self) -> (r: Query) {
        Query::OrderAsc(QueryAttr::new(self.as_str()))
    }
}

impl QueryExt for &str {
    open spec fn attr_name(&self) -> Seq<char> {
        self@
    }

    fn equal(&self, v: QueryValue) -> (r: Query) {
        Query::Equal(QueryAttr::new(*self), v)
    }

    fn not_equal(&self, v: QueryValue) -> (r: Query) {
        Query::NotEqual(QueryAttr::new(*self), v)
    }

    fn less_than(&self, v: QueryValue) -> (r: Query) {
        Query::LessThan(QueryAttr::new(*self), v)
    }

    fn less_than_equal(&self, v: QueryValue) -> (r: Query) {
        Query::LessThanEqual(QueryAttr::new(*self), v)
    }

    fn greater_than(&self, v: QueryValue) -> (r: Query) {
        Query::GreaterThan(QueryAttr::new(*self), v)
    }

    fn greater_than_equal(&self, v: QueryValue) -> (r: Query) {
        Query::GreaterThanEqual(QueryAttr::new(*self), v)
    }

    fn search(&self, v: QueryValue) -> (r: Query) {
        Query::Search(QueryAttr::new(*self), v)
    }

    fn order_desc(&self) -> (r: Query) {
        Query::OrderDesc(QueryAttr::new(*self))
    }

    fn order_asc(&self) -> (r: Query) {
        Query::OrderAsc(QueryAttr::new(*self))
    }
}

} // verus!
