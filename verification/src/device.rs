//! The device enumerator: from the listing of a device's attribute and
//! authentication directories to the sequences that the library exposes,
//! and the lookup of one attribute by its name.

use vstd::prelude::*;
use crate::attribute::{
    assemble_attribute, assembled, Attribute, AttributeFiles, AttributeFilesView, AttributeView,
};
use crate::authentication::{
    assemble_authentication, assembled_authentication, Authentication, AuthenticationFiles,
    AuthenticationFilesView, AuthenticationView,
};
use crate::error::{Error, ReadError};
use crate::text::same_bytes;

verus! {

/// Whether `attributes` is what the directories in `entries` assemble to:
/// one attribute for each directory, in the same order.
pub open spec fn all_assembled(
    entries: Seq<AttributeFilesView>,
    attributes: Seq<AttributeView>,
) -> bool {
    &&& attributes.len() == entries.len()
    &&& forall|i: int|
        0 <= i < entries.len() ==> assembled(#[trigger] entries[i]) == Ok::<AttributeView, Error>(
            attributes[i],
        )
}

/// Whether `e` is the failure of the first directory in `entries` that
/// does not assemble.
pub open spec fn first_failure(entries: Seq<AttributeFilesView>, e: Error) -> bool {
    exists|k: int|
        {
            &&& 0 <= k < entries.len()
            &&& assembled(#[trigger] entries[k]) == Err::<AttributeView, Error>(e)
            &&& forall|j: int| 0 <= j < k ==> assembled(#[trigger] entries[j]) is Ok
        }
}

/// Whether `r` is the listing of a device's attributes, given how the read
/// of its attribute directories ended. A listing that failed fails the
/// query with the kind of its error. Else every directory is assembled, in
/// the order of the listing, and the first one that fails, if any, fails
/// the whole query with its own error.
pub open spec fn is_attribute_listing(
    listing: Result<Seq<AttributeFilesView>, ReadError>,
    r: Result<Seq<AttributeView>, Error>,
) -> bool {
    match listing {
        Err(e) => r == Err::<Seq<AttributeView>, Error>(Error::of_read(e)),
        Ok(entries) => match r {
            Ok(attributes) => all_assembled(entries, attributes),
            Err(e) => first_failure(entries, e),
        },
    }
}

/// Whether `authentications` is what the directories in `entries`
/// assemble to: one method for each directory, in the same order.
pub open spec fn all_authentications_assembled(
    entries: Seq<AuthenticationFilesView>,
    authentications: Seq<AuthenticationView>,
) -> bool {
    &&& authentications.len() == entries.len()
    &&& forall|i: int|
        0 <= i < entries.len() ==> assembled_authentication(#[trigger] entries[i]) == Ok::<
            AuthenticationView,
            Error,
        >(authentications[i])
}

/// Whether `e` is the failure of the first authentication directory in
/// `entries` that does not assemble.
pub open spec fn first_authentication_failure(
    entries: Seq<AuthenticationFilesView>,
    e: Error,
) -> bool {
    exists|k: int|
        {
            &&& 0 <= k < entries.len()
            &&& assembled_authentication(#[trigger] entries[k]) == Err::<AuthenticationView, Error>(
                e,
            )
            &&& forall|j: int|
                0 <= j < k ==> assembled_authentication(#[trigger] entries[j]) is Ok
        }
}

/// Whether `r` is the listing of a device's authentication methods, given
/// how the read of its authentication directories ended. The rule is that
/// of the attributes.
pub open spec fn is_authentication_listing(
    listing: Result<Seq<AuthenticationFilesView>, ReadError>,
    r: Result<Seq<AuthenticationView>, Error>,
) -> bool {
    match listing {
        Err(e) => r == Err::<Seq<AuthenticationView>, Error>(Error::of_read(e)),
        Ok(entries) => match r {
            Ok(authentications) => all_authentications_assembled(entries, authentications),
            Err(e) => first_authentication_failure(entries, e),
        },
    }
}

/// The listing of directories with each record taken as a mathematical
/// value.
pub open spec fn attribute_listing_view(listing: Result<Vec<AttributeFiles>, ReadError>) -> Result<
    Seq<AttributeFilesView>,
    ReadError,
> {
    match listing {
        Ok(entries) => Ok(entries.deep_view()),
        Err(e) => Err(e),
    }
}

/// The listing of directories with each record taken as a mathematical
/// value.
pub open spec fn authentication_listing_view(
    listing: Result<Vec<AuthenticationFiles>, ReadError>,
) -> Result<Seq<AuthenticationFilesView>, ReadError> {
    match listing {
        Ok(entries) => Ok(entries.deep_view()),
        Err(e) => Err(e),
    }
}

/// The attributes of a result, each taken as a mathematical value.
pub open spec fn attributes_view(r: Result<Vec<Attribute>, Error>) -> Result<
    Seq<AttributeView>,
    Error,
> {
    match r {
        Ok(attributes) => Ok(attributes.deep_view()),
        Err(e) => Err(e),
    }
}

/// The authentication methods of a result, each taken as a mathematical
/// value.
pub open spec fn authentications_view(r: Result<Vec<Authentication>, Error>) -> Result<
    Seq<AuthenticationView>,
    Error,
> {
    match r {
        Ok(authentications) => Ok(authentications.deep_view()),
        Err(e) => Err(e),
    }
}

/// Whether `i` is the position of the first attribute called `name`.
pub open spec fn is_first_named(attributes: Seq<AttributeView>, name: Seq<u8>, i: int) -> bool {
    &&& 0 <= i < attributes.len()
    &&& attributes[i].name == name
    &&& forall|j: int| 0 <= j < i ==> (#[trigger] attributes[j]).name != name
}

/// Whether no two directories share a name.
pub open spec fn distinct_directory_names(entries: Seq<AttributeFilesView>) -> bool {
    forall|i: int, j: int|
        0 <= i < j < entries.len() ==> (#[trigger] entries[i]).name != (#[trigger] entries[j]).name
}

/// Whether no two attributes share a name.
pub open spec fn distinct_names(attributes: Seq<AttributeView>) -> bool {
    forall|i: int, j: int|
        0 <= i < j < attributes.len() ==> (#[trigger] attributes[i]).name != (
        #[trigger] attributes[j]).name
}

/// Whether no attribute is called `name`.
pub open spec fn none_named(attributes: Seq<AttributeView>, name: Seq<u8>) -> bool {
    forall|j: int| 0 <= j < attributes.len() ==> (#[trigger] attributes[j]).name != name
}

/// The reads of a device decide its listing: two results that are both
/// the listing of the same reads are the same result.
pub proof fn lemma_listing_is_unique(
    listing: Result<Seq<AttributeFilesView>, ReadError>,
    a: Result<Seq<AttributeView>, Error>,
    b: Result<Seq<AttributeView>, Error>,
)
    requires
        is_attribute_listing(listing, a),
        is_attribute_listing(listing, b),
    ensures
        a == b,
{
    if listing is Ok {
        let entries = listing->Ok_0;
        if a is Ok && b is Ok {
            assert forall|i: int| 0 <= i < entries.len() implies a->Ok_0[i] == b->Ok_0[i] by {
                assert(assembled(entries[i]) == Ok::<AttributeView, Error>(a->Ok_0[i]));
                assert(assembled(entries[i]) == Ok::<AttributeView, Error>(b->Ok_0[i]));
            }
            assert(a->Ok_0 =~= b->Ok_0);
        } else if a is Err && b is Err {
            let ka = choose|k: int|
                {
                    &&& 0 <= k < entries.len()
                    &&& assembled(#[trigger] entries[k]) == Err::<AttributeView, Error>(a->Err_0)
                    &&& forall|j: int| 0 <= j < k ==> assembled(#[trigger] entries[j]) is Ok
                };
            let kb = choose|k: int|
                {
                    &&& 0 <= k < entries.len()
                    &&& assembled(#[trigger] entries[k]) == Err::<AttributeView, Error>(b->Err_0)
                    &&& forall|j: int| 0 <= j < k ==> assembled(#[trigger] entries[j]) is Ok
                };
            assert(ka == kb);
        }
    }
}

/// A device without attribute directories has an empty listing, and no
/// error.
pub proof fn lemma_no_directories_list_empty(r: Result<Seq<AttributeView>, Error>)
    requires
        is_attribute_listing(Ok(Seq::empty()), r),
    ensures
        r == Ok::<Seq<AttributeView>, Error>(Seq::empty()),
{
    if r is Ok {
        assert(r->Ok_0 =~= Seq::<AttributeView>::empty());
    }
}

/// One attribute that does not assemble fails the listing of the whole
/// device: no attribute is skipped.
pub proof fn lemma_one_failure_fails_the_listing(
    entries: Seq<AttributeFilesView>,
    k: int,
    r: Result<Seq<AttributeView>, Error>,
)
    requires
        0 <= k < entries.len(),
        assembled(entries[k]) is Err,
        is_attribute_listing(Ok(entries), r),
    ensures
        r is Err,
{
}

/// The attributes of a listing carry the names of their directories, in
/// the same order; so where no two directories share a name, no two
/// attributes do.
pub proof fn lemma_listing_keeps_names(
    entries: Seq<AttributeFilesView>,
    attributes: Seq<AttributeView>,
)
    requires
        all_assembled(entries, attributes),
    ensures
        forall|i: int|
            0 <= i < entries.len() ==> (#[trigger] attributes[i]).name == entries[i].name,
        distinct_directory_names(entries) ==> distinct_names(attributes),
{
    assert forall|i: int| 0 <= i < entries.len() implies (#[trigger] attributes[i]).name
        == entries[i].name by {
        assert(assembled(entries[i]) == Ok::<AttributeView, Error>(attributes[i]));
    }
}

/// Where no two attributes share a name, an attribute of a given name is
/// the one that a lookup of that name finds.
pub proof fn lemma_unique_name_is_found(attributes: Seq<AttributeView>, name: Seq<u8>, i: int)
    requires
        distinct_names(attributes),
        0 <= i < attributes.len(),
        attributes[i].name == name,
    ensures
        is_first_named(attributes, name, i),
        forall|k: int| is_first_named(attributes, name, k) ==> k == i,
{
}

/// A name that no attribute of a listing carries is looked up in vain,
/// and a name that one carries is found: the two outcomes of a lookup
/// exclude each other.
pub proof fn lemma_lookup_is_decided(attributes: Seq<AttributeView>, name: Seq<u8>)
    ensures
        none_named(attributes, name) <==> !exists|i: int| is_first_named(attributes, name, i),
{
    if !none_named(attributes, name) {
        lemma_first_named_exists(attributes, name, attributes.len() as int);
    }
}

/// Among the first `n` attributes, if one is called `name`, there is a
/// first one.
proof fn lemma_first_named_exists(attributes: Seq<AttributeView>, name: Seq<u8>, n: int)
    requires
        0 <= n <= attributes.len(),
    ensures
        (exists|j: int| 0 <= j < n && (#[trigger] attributes[j]).name == name) ==> exists|i: int|
            i < n && is_first_named(attributes, name, i),
    decreases n,
{
    if n > 0 {
        lemma_first_named_exists(attributes, name, n - 1);
        if exists|j: int| 0 <= j < n - 1 && (#[trigger] attributes[j]).name == name {
            let i = choose|i: int| i < n - 1 && is_first_named(attributes, name, i);
            assert(i < n && is_first_named(attributes, name, i));
        } else if attributes[n - 1].name == name {
            assert(is_first_named(attributes, name, n - 1));
        }
    }
}

/// Lists the attributes of a device from the reads of its attribute
/// directories.
pub fn list_attributes(listing: &Result<Vec<AttributeFiles>, ReadError>) -> (r: Result<
    Vec<Attribute>,
    Error,
>)
    ensures
        is_attribute_listing(attribute_listing_view(*listing), attributes_view(r)),
        listing matches Ok(entries) && entries.len() == 0 ==> r is Ok && r->Ok_0.len() == 0,
{
    let entries = match listing {
        Ok(entries) => entries,
        Err(e) => {
            return Err(Error::from_read(*e));
        },
    };
    let mut attributes: Vec<Attribute> = Vec::new();
    let mut i: usize = 0;
    while i < entries.len()
        invariant
            *listing == Ok::<Vec<AttributeFiles>, ReadError>(*entries),
            0 <= i <= entries.len(),
            attributes.len() == i,
            forall|j: int|
                0 <= j < i ==> assembled(#[trigger] entries.deep_view()[j]) == Ok::<
                    AttributeView,
                    Error,
                >(attributes.deep_view()[j]),
        decreases entries.len() - i,
    {
        match assemble_attribute(&entries[i]) {
            Ok(attribute) => {
                attributes.push(attribute);
            },
            Err(e) => {
                assert(assembled(entries.deep_view()[i as int]) == Err::<AttributeView, Error>(e));
                return Err(e);
            },
        }
        i = i + 1;
    }
    Ok(attributes)
}

/// Lists the authentication methods of a device from the reads of its
/// authentication directories.
pub fn list_authentications(listing: &Result<Vec<AuthenticationFiles>, ReadError>) -> (r: Result<
    Vec<Authentication>,
    Error,
>)
    ensures
        is_authentication_listing(authentication_listing_view(*listing), authentications_view(r)),
        listing matches Ok(entries) && entries.len() == 0 ==> r is Ok && r->Ok_0.len() == 0,
{
    let entries = match listing {
        Ok(entries) => entries,
        Err(e) => {
            return Err(Error::from_read(*e));
        },
    };
    let mut authentications: Vec<Authentication> = Vec::new();
    let mut i: usize = 0;
    while i < entries.len()
        invariant
            *listing == Ok::<Vec<AuthenticationFiles>, ReadError>(*entries),
            0 <= i <= entries.len(),
            authentications.len() == i,
            forall|j: int|
                0 <= j < i ==> assembled_authentication(#[trigger] entries.deep_view()[j]) == Ok::<
                    AuthenticationView,
                    Error,
                >(authentications.deep_view()[j]),
        decreases entries.len() - i,
    {
        match assemble_authentication(&entries[i]) {
            Ok(authentication) => {
                authentications.push(authentication);
            },
            Err(e) => {
                assert(assembled_authentication(entries.deep_view()[i as int]) == Err::<
                    AuthenticationView,
                    Error,
                >(e));
                return Err(e);
            },
        }
        i = i + 1;
    }
    Ok(authentications)
}

/// Looks an attribute up by its name, compared byte for byte. Gives the
/// first attribute of that name, and fails with `NoSuchAttribute` where
/// there is none.
pub fn find_attribute<'a>(attributes: &'a Vec<Attribute>, name: &[u8]) -> (r: Result<
    &'a Attribute,
    Error,
>)
    ensures
        r matches Ok(found) ==> exists|i: int|
            is_first_named(attributes.deep_view(), name@, i) && *found == attributes[i],
        r matches Err(e) ==> e == Error::NoSuchAttribute && none_named(
            attributes.deep_view(),
            name@,
        ),
{
    let mut i: usize = 0;
    while i < attributes.len()
        invariant
            0 <= i <= attributes.len(),
            forall|j: int| 0 <= j < i ==> (#[trigger] attributes.deep_view()[j]).name != name@,
        decreases attributes.len() - i,
    {
        if same_bytes(attributes[i].name.as_slice(), name) {
            return Ok(&attributes[i]);
        }
        i = i + 1;
    }
    Err(Error::NoSuchAttribute)
}

} // verus!
