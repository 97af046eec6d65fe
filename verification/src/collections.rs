//! Models for the `collection.db` database file, which contains information
//! on beatmap collections.

use vstd::prelude::*;

use crate::common::{osu_string, sd_osu_string, OsuString};
use crate::error::Error;
use crate::reader::{read_u32, sd_u32};

verus! {

/// A decoded `collection.db` file.
#[derive(Clone, Debug)]
pub struct CollectionListing {
    /// Version (e.g. 20150203)
    pub version: u32,
    /// Beatmap collections
    pub collections: Vec<Collection>,
}

/// One named collection: beatmaps are referenced by content hash only.
#[derive(Clone, Debug)]
pub struct Collection {
    /// Name of the collection
    pub name: OsuString,
    /// MD5 hashes of beatmaps in the collection
    pub beatmap_md5s: Vec<OsuString>,
}

/// Mathematical value of a [`Collection`].
pub struct CollectionView {
    pub name: Option<Seq<char>>,
    pub beatmap_md5s: Seq<Option<Seq<char>>>,
}

/// Mathematical value of a [`CollectionListing`].
pub struct CollectionListingView {
    pub version: u32,
    pub collections: Seq<CollectionView>,
}

impl View for Collection {
    type V = CollectionView;

    open spec fn view(&self) -> CollectionView {
        CollectionView { name: self.name.deep_view(), beatmap_md5s: self.beatmap_md5s.deep_view() }
    }
}

impl DeepView for Collection {
    type V = CollectionView;

    open spec fn deep_view(&self) -> CollectionView {
        self.view()
    }
}

impl View for CollectionListing {
    type V = CollectionListingView;

    open spec fn view(&self) -> CollectionListingView {
        CollectionListingView {
            version: self.version,
            collections: self.collections.deep_view(),
        }
    }
}

/// `n` consecutive tagged strings starting at `pos`.
pub open spec fn sd_osu_string_list(s: Seq<u8>, pos: int, n: int) -> Result<
    (Seq<Option<Seq<char>>>, int),
    Error,
>
    decreases n,
{
    if n <= 0 {
        Ok((Seq::empty(), pos))
    } else {
        match sd_osu_string(s, pos) {
            Ok(o) => match sd_osu_string_list(s, o.1, n - 1) {
                Ok(o2) => Ok((seq![o.0] + o2.0, o2.1)),
                Err(e) => Err(e),
            },
            Err(e) => Err(e),
        }
    }
}

/// Reads `n` consecutive tagged strings.
fn osu_string_list(input: &[u8], pos: usize, n: u32) -> (r: Result<
    (Vec<OsuString>, usize),
    Error,
>)
    requires
        pos <= input@.len(),
    ensures
        match sd_osu_string_list(input@, pos as int, n as int) {
            Ok(o) => r matches Ok(v) && v.0.deep_view() == o.0 && v.1 as int == o.1,
            Err(e) => r matches Err(e2) && e2 == e,
        },
        r matches Ok(v) ==> pos <= v.1 && v.1 <= input@.len(),
{
    let mut out: Vec<OsuString> = Vec::new();
    let mut p: usize = pos;
    let mut i: u32 = 0;
    while i < n
        invariant
            i <= n,
            pos <= p <= input@.len(),
            match sd_osu_string_list(input@, p as int, (n - i) as int) {
                Ok(rest) => sd_osu_string_list(input@, pos as int, n as int) == Ok::<
                    (Seq<Option<Seq<char>>>, int),
                    Error,
                >((out.deep_view() + rest.0, rest.1)),
                Err(e) => sd_osu_string_list(input@, pos as int, n as int) == Err::<
                    (Seq<Option<Seq<char>>>, int),
                    Error,
                >(e),
            },
        decreases n - i,
    {
        let ghost out_before = out.deep_view();
        match osu_string(input, p) {
            Ok((v, p2)) => {
                out.push(v);
                proof {
                    assert(out.deep_view() =~= out_before + seq![v.deep_view()]);
                    match sd_osu_string_list(input@, p2 as int, (n - i - 1) as int) {
                        Ok(rest2) => {
                            assert(out_before + (seq![v.deep_view()] + rest2.0) =~= out.deep_view()
                                + rest2.0);
                        },
                        Err(_) => {},
                    }
                }
                p = p2;
                i = i + 1;
            },
            Err(e) => {
                return Err(e);
            },
        }
    }
    proof {
        assert(out.deep_view() + Seq::<Option<Seq<char>>>::empty() =~= out.deep_view());
    }
    Ok((out, p))
}

/// The collection entry starting at `pos`: a name, a hash count, and that
/// many beatmap hashes.
pub open spec fn sd_collection(s: Seq<u8>, pos: int) -> Result<(CollectionView, int), Error> {
    match sd_osu_string(s, pos) {
        Ok(o) => match sd_u32(s, o.1) {
            Ok(o2) => match sd_osu_string_list(s, o2.1, o2.0 as int) {
                Ok(o3) => Ok((CollectionView { name: o.0, beatmap_md5s: o3.0 }, o3.1)),
                Err(e) => Err(e),
            },
            Err(e) => Err(e),
        },
        Err(e) => Err(e),
    }
}

/// Parses a collection entry in the `collection.db` file.
pub fn collection(input: &[u8], pos: usize) -> (r: Result<(Collection, usize), Error>)
    ensures
        match sd_collection(input@, pos as int) {
            Ok(o) => r matches Ok(v) && v.0@ == o.0 && v.1 as int == o.1,
            Err(e) => r matches Err(e2) && e2 == e,
        },
        r matches Ok(v) ==> pos <= v.1 && v.1 <= input@.len(),
{
    let (name, p) = match osu_string(input, pos) {
        Ok(x) => x,
        Err(e) => { return Err(e) },
    };
    let (count, p2) = match read_u32(input, p) {
        Ok(x) => x,
        Err(e) => { return Err(e) },
    };
    let (beatmap_md5s, p3) = match osu_string_list(input, p2, count) {
        Ok(x) => x,
        Err(e) => { return Err(e) },
    };
    Ok((Collection { name, beatmap_md5s }, p3))
}

/// `n` consecutive collection entries starting at `pos`.
pub open spec fn sd_collection_list(s: Seq<u8>, pos: int, n: int) -> Result<
    (Seq<CollectionView>, int),
    Error,
>
    decreases n,
{
    if n <= 0 {
        Ok((Seq::empty(), pos))
    } else {
        match sd_collection(s, pos) {
            Ok(o) => match sd_collection_list(s, o.1, n - 1) {
                Ok(o2) => Ok((seq![o.0] + o2.0, o2.1)),
                Err(e) => Err(e),
            },
            Err(e) => Err(e),
        }
    }
}

/// Reads `n` consecutive collection entries.
fn collection_list(input: &[u8], pos: usize, n: u32) -> (r: Result<(Vec<Collection>, usize), Error>)
    requires
        pos <= input@.len(),
    ensures
        match sd_collection_list(input@, pos as int, n as int) {
            Ok(o) => r matches Ok(v) && v.0.deep_view() == o.0 && v.1 as int == o.1,
            Err(e) => r matches Err(e2) && e2 == e,
        },
        r matches Ok(v) ==> pos <= v.1 && v.1 <= input@.len(),
{
    let mut out: Vec<Collection> = Vec::new();
    let mut p: usize = pos;
    let mut i: u32 = 0;
    while i < n
        invariant
            i <= n,
            pos <= p <= input@.len(),
            match sd_collection_list(input@, p as int, (n - i) as int) {
                Ok(rest) => sd_collection_list(input@, pos as int, n as int) == Ok::<
                    (Seq<CollectionView>, int),
                    Error,
                >((out.deep_view() + rest.0, rest.1)),
                Err(e) => sd_collection_list(input@, pos as int, n as int) == Err::<
                    (Seq<CollectionView>, int),
                    Error,
                >(e),
            },
        decreases n - i,
    {
        let ghost out_before = out.deep_view();
        match collection(input, p) {
            Ok((v, p2)) => {
                out.push(v);
                proof {
                    assert(out.deep_view() =~= out_before + seq![v.deep_view()]);
                    match sd_collection_list(input@, p2 as int, (n - i - 1) as int) {
                        Ok(rest2) => {
                            assert(out_before + (seq![v.deep_view()] + rest2.0) =~= out.deep_view()
                                + rest2.0);
                        },
                        Err(_) => {},
                    }
                }
                p = p2;
                i = i + 1;
            },
            Err(e) => {
                return Err(e);
            },
        }
    }
    proof {
        assert(out.deep_view() + Seq::<CollectionView>::empty() =~= out.deep_view());
    }
    Ok((out, p))
}

/// The whole `collection.db` layout starting at `pos`: a version, a
/// collection count, and that many collection entries.
pub open spec fn sd_collection_listing(s: Seq<u8>, pos: int) -> Result<
    (CollectionListingView, int),
    Error,
> {
    match sd_u32(s, pos) {
        Ok(o) => match sd_u32(s, o.1) {
            Ok(o2) => match sd_collection_list(s, o2.1, o2.0 as int) {
                Ok(o3) => Ok(
                    (CollectionListingView { version: o.0, collections: o3.0 }, o3.1),
                ),
                Err(e) => Err(e),
            },
            Err(e) => Err(e),
        },
        Err(e) => Err(e),
    }
}

/// Parses a `collection.db` file.
pub fn collection_listing(input: &[u8], pos: usize) -> (r: Result<(CollectionListing, usize), Error>)
    ensures
        match sd_collection_listing(input@, pos as int) {
            Ok(o) => r matches Ok(v) && v.0@ == o.0 && v.1 as int == o.1,
            Err(e) => r matches Err(e2) && e2 == e,
        },
        r matches Ok(v) ==> pos <= v.1 && v.1 <= input@.len(),
{
    let (version, p) = match read_u32(input, pos) {
        Ok(x) => x,
        Err(e) => { return Err(e) },
    };
    let (count, p2) = match read_u32(input, p) {
        Ok(x) => x,
        Err(e) => { return Err(e) },
    };
    let (collections, p3) = match collection_list(input, p2, count) {
        Ok(x) => x,
        Err(e) => { return Err(e) },
    };
    Ok((CollectionListing { version, collections }, p3))
}

impl CollectionListing {
    /// Parses the contents of a `collection.db` file. Trailing bytes after
    /// the listing are left unread.
    pub fn from_bytes(data: &[u8]) -> (r: Result<CollectionListing, Error>)
        ensures
            match sd_collection_listing(data@, 0) {
                Ok(o) => r matches Ok(v) && v@ == o.0,
                Err(e) => r matches Err(e2) && e2 == e,
            },
    {
        match collection_listing(data, 0) {
            Ok((listing, _)) => Ok(listing),
            Err(e) => Err(e),
        }
    }
}

} // verus!
