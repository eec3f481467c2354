//! How a resource's path and an id strategy become the URI of a request.

use vstd::prelude::*;
use vstd::string::StringExecFns;

use crate::error::UsageError;
use crate::language::Language;
use crate::private::Sealed;
use crate::request::{Authentication, Request, RequestBuilder};
use crate::text::{decimal, has_char, is_digit, lemma_decimal_digits, push_decimal};

verus! {

/// A value that can name one item of a resource.
pub trait Identifier: Sealed {
    /// The text that stands for the identifier in a query.
    spec fn rendering(&self) -> Seq<char>;

    /// Appends the identifier's text to `out`.
    fn render(&self, out: &mut String)
        ensures
            final(out)@ == old(out)@ + self.rendering(),
    ;
}

impl Identifier for u64 {
    open spec fn rendering(&self) -> Seq<char> {
        decimal(*self as nat)
    }

    fn render(&self, out: &mut String) {
        push_decimal(out, *self);
    }
}

impl Identifier for String {
    open spec fn rendering(&self) -> Seq<char> {
        self@
    }

    fn render(&self, out: &mut String) {
        out.append(self.as_str());
    }
}

/// Which items of a resource a request asks for.
#[derive(Clone, Debug)]
pub enum IdParameter<I> {
    /// Every item.
    All,
    /// The item with this id.
    Id(I),
    /// The items with these ids, in this order.
    Ids(Vec<I>),
}

/// The texts of `ids`, in the same order.
pub open spec fn renderings<I: Identifier>(ids: Seq<I>) -> Seq<Seq<char>> {
    Seq::new(ids.len(), |i: int| ids[i].rendering())
}

/// `parts` one after the other, with one comma between neighbours.
pub open spec fn joined(parts: Seq<Seq<char>>) -> Seq<char>
    decreases parts.len(),
{
    if parts.len() == 0 {
        Seq::empty()
    } else if parts.len() == 1 {
        parts[0]
    } else {
        joined(parts.drop_last()) + seq![','] + parts.last()
    }
}

impl<I: Identifier> IdParameter<I> {
    /// The query a parameter stands for; an empty id list stands for none.
    pub open spec fn query(self) -> Option<Seq<char>> {
        match self {
            IdParameter::All => Some("ids=all"@),
            IdParameter::Id(id) => Some("id="@ + id.rendering()),
            IdParameter::Ids(ids) => if ids@.len() == 0 {
                None
            } else {
                Some("ids="@ + joined(renderings(ids@)))
            },
        }
    }

    /// Renders the parameter as a query, without the leading `?`.
    /// An empty id list is refused.
    pub fn render(&self) -> (r: Result<String, UsageError>)
        ensures
            match self.query() {
                Some(query) => r matches Ok(text) && text@ == query,
                None => r == Err::<String, UsageError>(UsageError::InvalidArgument),
            },
    {
        match self {
            IdParameter::All => Ok(String::from_str("ids=all")),
            IdParameter::Id(id) => {
                let mut out = String::from_str("id=");
                id.render(&mut out);
                Ok(out)
            },
            IdParameter::Ids(ids) => {
                if ids.len() == 0 {
                    return Err(UsageError::InvalidArgument);
                }
                let mut out = String::from_str("ids=");
                let mut i: usize = 0;
                while i < ids.len()
                    invariant
                        0 <= i <= ids.len(),
                        out@ == "ids="@ + joined(renderings(ids@).take(i as int)),
                    decreases ids.len() - i,
                {
                    if i > 0 {
                        out.append(",");
                    }
                    ids[i].render(&mut out);
                    proof {
                        reveal_strlit(",");
                        let all = renderings(ids@);
                        let next = all.take(i + 1);
                        assert(next.drop_last() =~= all.take(i as int));
                        assert(next.last() == ids@[i as int].rendering());
                        assert(","@ =~= seq![',']);
                        assert(out@ =~= "ids="@ + joined(next));
                    }
                    i += 1;
                }
                assert(renderings(ids@).take(i as int) =~= renderings(ids@));
                Ok(out)
            },
        }
    }
}

/// Joining two non-empty lists one after the other is joining each and
/// putting one comma between the two: the order is kept and a separator
/// stands between neighbours only.
pub proof fn lemma_joined_concat(a: Seq<Seq<char>>, b: Seq<Seq<char>>)
    requires
        a.len() > 0,
        b.len() > 0,
    ensures
        joined(a + b) == joined(a) + seq![','] + joined(b),
    decreases b.len(),
{
    let whole = a + b;
    assert(whole.last() == b.last());
    if b.len() == 1 {
        assert(whole.drop_last() =~= a);
        assert(joined(whole) =~= joined(a) + seq![','] + joined(b));
    } else {
        assert(whole.drop_last() =~= a + b.drop_last());
        lemma_joined_concat(a, b.drop_last());
        assert(joined(whole) =~= joined(a) + seq![','] + joined(b));
    }
}

/// A joined list starts with its first part, and each later part follows a
/// comma.
pub proof fn lemma_joined_front(parts: Seq<Seq<char>>)
    requires
        parts.len() > 1,
    ensures
        joined(parts) == parts[0] + seq![','] + joined(parts.drop_first()),
{
    let head = seq![parts[0]];
    assert(head + parts.drop_first() =~= parts);
    assert(joined(head) == parts[0]);
    lemma_joined_concat(head, parts.drop_first());
}

/// A list of numeric ids renders with a digit at either end: no separator
/// leads or trails.
pub proof fn lemma_numeric_ids_end_in_digits(ids: Seq<u64>)
    requires
        ids.len() > 0,
    ensures
        joined(renderings(ids)).len() > 0,
        is_digit(joined(renderings(ids)).first()),
        is_digit(joined(renderings(ids)).last()),
    decreases ids.len(),
{
    let parts = renderings(ids);
    lemma_decimal_digits(ids.last() as nat);
    lemma_decimal_digits(ids[0] as nat);
    assert(parts.last() == decimal(ids.last() as nat));
    assert(parts[0] == decimal(ids[0] as nat));
    if ids.len() > 1 {
        assert(parts.drop_last() =~= renderings(ids.drop_last()));
        lemma_numeric_ids_end_in_digits(ids.drop_last());
        let front = joined(parts.drop_last());
        let whole = joined(parts);
        assert(whole == front + seq![','] + parts.last());
        assert(whole.first() == front.first());
        assert(whole.last() == parts.last().last());
    }
}

/// The URI for `template` and an id strategy: the bare template without a
/// parameter, else the template, `?` and the parameter's query.
pub open spec fn uri_for<I: Identifier>(template: Seq<char>, ids: Option<IdParameter<I>>) -> Option<
    Seq<char>,
> {
    match ids {
        None => Some(template),
        Some(parameter) => match parameter.query() {
            Some(query) => Some(template + seq!['?'] + query),
            None => None,
        },
    }
}

/// Whether `r` is what [`resource_uri`] returns for these inputs.
pub open spec fn uri_built<I: Identifier>(
    template: Seq<char>,
    ids: Option<IdParameter<I>>,
    r: Result<String, UsageError>,
) -> bool {
    match uri_for(template, ids) {
        Some(uri) => r matches Ok(text) && text@ == uri,
        None => r == Err::<String, UsageError>(UsageError::InvalidArgument),
    }
}

/// Builds the URI of a request from a resource's path and an id strategy.
pub fn resource_uri<I: Identifier>(template: &str, ids: Option<&IdParameter<I>>) -> (r: Result<
    String,
    UsageError,
>)
    ensures
        uri_built(
            template@,
            match ids {
                Some(parameter) => Some(*parameter),
                None => None,
            },
            r,
        ),
{
    let mut out = String::from_str(template);
    match ids {
        None => Ok(out),
        Some(parameter) => match parameter.render() {
            Err(err) => Err(err),
            Ok(query) => {
                out.append("?");
                out.append(query.as_str());
                proof {
                    reveal_strlit("?");
                    assert("?"@ =~= seq!['?']);
                }
                Ok(out)
            },
        },
    }
}

/// Building a URI twice from the same inputs gives the same text, or the
/// same refusal.
pub proof fn lemma_uri_deterministic<I: Identifier>(
    template: Seq<char>,
    ids: Option<IdParameter<I>>,
    first: Result<String, UsageError>,
    second: Result<String, UsageError>,
)
    requires
        uri_built(template, ids, first),
        uri_built(template, ids, second),
    ensures
        first is Ok <==> second is Ok,
        first matches Ok(a) ==> (second matches Ok(b) && a@ == b@),
        first is Err ==> first == second,
{
}

/// `uri` with the language parameter the client asks for: unchanged when
/// the resource is not localized, else followed by `lang=` and the tag,
/// after `&` where `uri` has a query already and after `?` where it has not.
pub open spec fn with_language(uri: Seq<char>, localized: bool, language: Language) -> Seq<char> {
    if !localized {
        uri
    } else if uri.contains('?') {
        uri + "&lang="@ + language.tag()
    } else {
        uri + "?lang="@ + language.tag()
    }
}

/// Appends the language parameter to `uri` where the resource is localized.
pub fn localize(uri: &str, localized: bool, language: Language) -> (r: String)
    ensures
        r@ == with_language(uri@, localized, language),
{
    let mut out = String::from_str(uri);
    if localized {
        if has_char(uri, '?') {
            out.append("&lang=");
        } else {
            out.append("?lang=");
        }
        out.append(language.code());
    }
    out
}

/// A static declaration of one resource of the API.
#[derive(Copy, Clone, Debug)]
pub struct ResourceDescriptor {
    /// The path of the resource.
    pub uri: &'static str,
    /// Whether the resource wants the access token.
    pub authentication: Authentication,
    /// Whether the answer depends on the language.
    pub localized: bool,
}

impl ResourceDescriptor {
    /// The request for the resource itself, without an id parameter.
    pub fn request(&self) -> (r: RequestBuilder)
        ensures
            r@ == (Request {
                uri: self.uri@,
                authentication: self.authentication,
                localized: self.localized,
            }),
    {
        RequestBuilder::new(self.uri).authenticated(self.authentication).localized(self.localized)
    }

    /// The request for the items that `ids` selects. An empty id list is
    /// refused.
    pub fn request_for<I: Identifier>(&self, ids: &IdParameter<I>) -> (r: Result<
        RequestBuilder,
        UsageError,
    >)
        ensures
            match uri_for(self.uri@, Some(*ids)) {
                Some(uri) => r matches Ok(request) && request@ == (Request {
                    uri,
                    authentication: self.authentication,
                    localized: self.localized,
                }),
                None => r matches Err(err) && err == UsageError::InvalidArgument,
            },
    {
        match resource_uri(self.uri, Some(ids)) {
            Err(err) => Err(err),
            Ok(uri) => Ok(
                RequestBuilder::new(uri.as_str()).authenticated(self.authentication).localized(
                    self.localized,
                ),
            ),
        }
    }
}

} // verus!
