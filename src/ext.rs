//! Request extensions.
use vstd::prelude::*;

verus! {

/// The store of a request: at most one value for each type, kept by
/// `http::Extensions` and opaque here.
#[verifier::external_type_specification]
#[verifier::external_body]
pub struct ExExtensions(http::Extensions);

/// Relies on `http::Extensions::get`: the value stored for type `T`, if any.
/// The store is read through `&self` and left as it was.
pub assume_specification<T: Send + Sync + 'static>[ http::Extensions::get::<T> ](
    e: &http::Extensions,
) -> Option<&T>;

/// The rejection given by `get` when no value of the requested type was set.
#[derive(Clone, Copy, Debug, PartialEq, Eq, Structural)]
pub struct MissingExtension;

impl MissingExtension {
    /// The missing-extension rejection.
    pub fn new() -> (r: MissingExtension)
        ensures
            r == MissingExtension,
    {
        MissingExtension
    }

    /// The text of this rejection.
    pub fn message(&self) -> (r: String)
        ensures
            r@ == "Missing request extension"@,
    {
        String::from_str("Missing request extension")
    }
}

/// `r` is what a required read gives when the lookup found `found`: a clone of
/// the stored value, or the missing-extension rejection when there was none.
pub open spec fn required_read<T: Clone>(found: Option<&T>, r: Result<T, MissingExtension>) -> bool {
    match found {
        Some(v) => r is Ok && cloned::<T>(*v, r->Ok_0),
        None => r == Err::<T, MissingExtension>(MissingExtension),
    }
}

/// Turns the result of a lookup into the outcome of a required read.
pub fn get_from<T: Clone>(found: Option<&T>) -> (r: Result<T, MissingExtension>)
    ensures
        required_read(found, r),
{
    match found {
        Some(v) => Ok(v.clone()),
        None => Err(MissingExtension::new()),
    }
}

/// `r` is what an optional read gives when the lookup found `found`: a clone of
/// the stored value, or `None` when there was none.
pub open spec fn optional_read<T: Clone>(found: Option<&T>, r: Option<T>) -> bool {
    match found {
        Some(v) => r is Some && cloned::<T>(*v, r->Some_0),
        None => r is None,
    }
}

/// Turns the result of a lookup into the outcome of an optional read.
pub fn optional_from<T: Clone>(found: Option<&T>) -> (r: Option<T>)
    ensures
        optional_read(found, r),
{
    match found {
        Some(v) => Some(v.clone()),
        None => None,
    }
}

/// Get a previously set extension of the current request.
///
/// If no value of type `T` was set, this rejects with a `MissingExtension`.
/// The store is only read.
pub fn get<T: Clone + Send + Sync + 'static>(ext: &http::Extensions) -> (r: Result<
    T,
    MissingExtension,
>)
    ensures
        exists|found: Option<&T>| #[trigger] required_read(found, r),
        r is Err ==> r == Err::<T, MissingExtension>(MissingExtension),
{
    let found = ext.get::<T>();
    let r = get_from(found);
    assert(required_read(found, r));
    r
}

/// Get a previously set extension of the current request.
///
/// If no value of type `T` was set, this yields `None`; it never rejects.
/// The store is only read.
pub fn optional<T: Clone + Send + Sync + 'static>(ext: &http::Extensions) -> (r: Option<T>)
    ensures
        exists|found: Option<&T>| #[trigger] optional_read(found, r),
{
    let found = ext.get::<T>();
    let r = optional_from(found);
    assert(optional_read(found, r));
    r
}

/// Change the extensions of the current request: `func` is called once on the
/// store, and what it returns is the result, its rejection passed on as it is.
/// `func` must accept every store; the store afterwards is what `func` left.
pub fn with_mut<F, E>(ext: &mut http::Extensions, func: F) -> (r: Result<(), E>)
    where
        F: Fn(&mut http::Extensions) -> Result<(), E>,
    requires
        forall|e: &mut http::Extensions| call_requires(func, (e,)),
    ensures
        exists|e: &mut http::Extensions|
            *e == *old(ext) && *final(e) == *final(ext)
                && call_ensures(func, (e,), r),
{
    func(ext)
}

/// A value that was found is read by both accessors: the required read gives
/// a clone of it, and the optional read gives `Some` of a clone of it.
pub proof fn lemma_found_is_read<T: Clone>(v: &T, r: Result<T, MissingExtension>, o: Option<T>)
    requires
        required_read(Some(v), r),
        optional_read(Some(v), o),
    ensures
        r is Ok,
        cloned::<T>(*v, r->Ok_0),
        o is Some,
        cloned::<T>(*v, o->Some_0),
{
}

/// A value that was not found makes the required read reject with the
/// missing-extension cause, and the optional read yield `None`.
pub proof fn lemma_absent_is_rejected<T: Clone>(r: Result<T, MissingExtension>, o: Option<T>)
    requires
        required_read(None, r),
        optional_read(None, o),
    ensures
        r == Err::<T, MissingExtension>(MissingExtension),
        o is None,
{
}

/// Reads of one lookup agree with each other however often they are made: all
/// of them succeed or none does, and where cloning a `T` gives an equal value
/// they yield the same value.
pub proof fn lemma_reads_agree<T: Clone>(
    found: Option<&T>,
    r1: Result<T, MissingExtension>,
    r2: Result<T, MissingExtension>,
    o1: Option<T>,
    o2: Option<T>,
)
    requires
        required_read(found, r1),
        required_read(found, r2),
        optional_read(found, o1),
        optional_read(found, o2),
    ensures
        r1 is Ok <==> r2 is Ok,
        r1 is Ok <==> o1 is Some,
        o1 is Some <==> o2 is Some,
        (forall|a: T, b: T| #[trigger] cloned::<T>(a, b) ==> a == b) ==> {
            &&& r1 == r2
            &&& o1 == o2
            &&& r1 is Ok ==> o1 == Some(r1->Ok_0)
        },
{
}

} // verus!
