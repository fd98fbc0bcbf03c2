//! The attributes of the song Cider is playing, kept in a `dict` dictionary
//! keyed by attribute name.

use vstd::prelude::*;
use dict::{Dict, DictEntry, DictIface};
use crate::text::push_seq;
use crate::types::SongFields;

verus! {

#[verifier::external_type_specification]
#[verifier::external_body]
#[verifier::reject_recursive_types(T)]
pub struct ExDictEntry<T>(DictEntry<T>);

/// What `dict` hashes a key to: `DefaultHasher::new()` fed with the key.
pub uninterp spec fn key_hash(key: Seq<char>) -> u64;

/// Whether a dictionary's entries stand in strictly increasing order of
/// their hashes, the order that `add` keeps and that `add` and `get` rely
/// on (both search the vector by binary search on the hash).
pub uninterp spec fn hash_ordered(d: Dict<String>) -> bool;

/// What a dictionary in hash order holds: for each key hash in it, the key
/// and the value stored under it.
pub uninterp spec fn contents(d: Dict<String>) -> Map<u64, (Seq<char>, Seq<char>)>;

/// Creates an empty `dict` dictionary (`Dict::new`, an empty vector), which
/// holds nothing and is trivially in hash order.
#[verifier::external_body]
fn dict_new() -> (r: Dict<String>)
    ensures
        hash_ordered(r),
        contents(r) =~= Map::empty(),
{
    Dict::<String>::new()
}

/// Calls `DictIface::add` on a dictionary in hash order. As the crate's
/// source shows, the value is stored under the key's hash, at the position
/// that keeps the hash order, unless an entry with that hash is already
/// there (the same key, or another key whose hash collides), in which case
/// nothing changes and `false` is returned. Nothing is said of a vector out
/// of hash order.
#[verifier::external_body]
fn dict_add(d: &mut Dict<String>, key: String, val: String) -> (added: bool)
    requires
        hash_ordered(*old(d)),
    ensures
        hash_ordered(*final(d)),
        contents(*old(d)).dom().contains(key_hash(key@)) ==> !added && contents(*final(d))
            == contents(*old(d)),
        !contents(*old(d)).dom().contains(key_hash(key@)) ==> added && contents(*final(d))
            == contents(*old(d)).insert(key_hash(key@), (key@, val@)),
{
    DictIface::add(d, key, val)
}

/// Calls `DictIface::get` on a dictionary in hash order: the value stored
/// under the key's hash, if any. Nothing is said of a vector out of hash
/// order.
#[verifier::external_body]
fn dict_get<'a>(d: &'a Dict<String>, key: &str) -> (r: Option<&'a String>)
    requires
        hash_ordered(*d),
    ensures
        match contents(*d).get(key_hash(key@)) {
            Some((_, v)) => r matches Some(s) && s@ == v,
            None => r is None,
        },
{
    DictIface::get(d, key)
}

/// The attributes of a song, by name: `song_name`, `artist_name`,
/// `album_name` and `position`.
pub struct SongAttributes {
    entries: Dict<String>,
}

/// The attribute names, in the order they are stored.
pub open spec fn attribute_names() -> Seq<Seq<char>> {
    seq!["song_name"@, "artist_name"@, "album_name"@, "position"@]
}

/// Whether the four attribute names have four different hashes.
pub open spec fn names_hash_apart() -> bool {
    forall|i: int, j: int|
        0 <= i < j < 4 ==> key_hash(#[trigger] attribute_names()[i]) != key_hash(
            #[trigger] attribute_names()[j],
        )
}

fn owned(s: &str) -> (t: String)
    ensures
        t@ == s@,
{
    let mut t = String::new();
    push_seq(&mut t, s);
    t
}

/// What adding `val` under `key` makes of the contents `m`: the entry is
/// stored under the key's hash unless that hash is taken already.
pub open spec fn added(m: Map<u64, (Seq<char>, Seq<char>)>, key: Seq<char>, val: Seq<char>) -> Map<
    u64,
    (Seq<char>, Seq<char>),
> {
    if m.dom().contains(key_hash(key)) {
        m
    } else {
        m.insert(key_hash(key), (key, val))
    }
}

/// The contents after adding the four attributes, in order, to an empty
/// dictionary: on a hash collision the value added first stays.
pub open spec fn song_contents(
    song_name: Seq<char>,
    artist_name: Seq<char>,
    album_name: Seq<char>,
    position: Seq<char>,
) -> Map<u64, (Seq<char>, Seq<char>)> {
    added(
        added(
            added(added(Map::empty(), attribute_names()[0], song_name), attribute_names()[1], artist_name),
            attribute_names()[2],
            album_name,
        ),
        attribute_names()[3],
        position,
    )
}

impl SongAttributes {
    /// Every attribute name has a value.
    #[verifier::type_invariant]
    spec fn complete(self) -> bool {
        &&& hash_ordered(self.entries)
        &&& forall|i: int| 0 <= i < 4 ==> contents(self.entries).dom().contains(key_hash(#[trigger] attribute_names()[i]))
    }

    /// What the attributes hold.
    pub closed spec fn view(&self) -> Map<u64, (Seq<char>, Seq<char>)> {
        contents(self.entries)
    }

    /// The attributes of a song with these names and position (as text),
    /// added in that order. Every attribute name then has a value; when the
    /// names hash apart, each name holds its own value.
    pub fn of_song(song_name: String, artist_name: String, album_name: String, position: String) -> (a: SongAttributes)
        ensures
            a.view() == song_contents(song_name@, artist_name@, album_name@, position@),
            forall|i: int| 0 <= i < 4 ==> a.view().dom().contains(key_hash(#[trigger] attribute_names()[i])),
            names_hash_apart() ==> {
                &&& a.view()[key_hash(attribute_names()[0])] == (attribute_names()[0], song_name@)
                &&& a.view()[key_hash(attribute_names()[1])] == (attribute_names()[1], artist_name@)
                &&& a.view()[key_hash(attribute_names()[2])] == (attribute_names()[2], album_name@)
                &&& a.view()[key_hash(attribute_names()[3])] == (attribute_names()[3], position@)
            },
    {
        let mut entries = dict_new();
        let k0 = owned("song_name");
        let k1 = owned("artist_name");
        let k2 = owned("album_name");
        let k3 = owned("position");
        let ghost (h0, h1, h2, h3) = (key_hash(k0@), key_hash(k1@), key_hash(k2@), key_hash(k3@));
        let ghost expected = song_contents(song_name@, artist_name@, album_name@, position@);
        dict_add(&mut entries, k0, song_name);
        dict_add(&mut entries, k1, artist_name);
        dict_add(&mut entries, k2, album_name);
        dict_add(&mut entries, k3, position);
        proof {
            assert(attribute_names()[0] == "song_name"@);
            assert(attribute_names()[1] == "artist_name"@);
            assert(attribute_names()[2] == "album_name"@);
            assert(attribute_names()[3] == "position"@);
            assert(contents(entries) =~= expected);
            if names_hash_apart() {
                assert(h0 != h1 && h0 != h2 && h0 != h3 && h1 != h2 && h1 != h3 && h2 != h3) by {
                    assert(key_hash(attribute_names()[0]) != key_hash(attribute_names()[1]));
                    assert(key_hash(attribute_names()[0]) != key_hash(attribute_names()[2]));
                    assert(key_hash(attribute_names()[0]) != key_hash(attribute_names()[3]));
                    assert(key_hash(attribute_names()[1]) != key_hash(attribute_names()[2]));
                    assert(key_hash(attribute_names()[1]) != key_hash(attribute_names()[3]));
                    assert(key_hash(attribute_names()[2]) != key_hash(attribute_names()[3]));
                }
            }
        }
        SongAttributes { entries }
    }

    /// The value of the attribute `name`, if it has one.
    pub fn get(&self, name: &str) -> (r: Option<String>)
        ensures
            match self.view().get(key_hash(name@)) {
                Some((_, v)) => r matches Some(s) && s@ == v,
                None => r is None,
            },
    {
        proof {
            use_type_invariant(self);
        }
        match dict_get(&self.entries, name) {
            Some(v) => Some(v.clone()),
            None => None,
        }
    }

    /// The song's fields: the value of each attribute name.
    pub fn song_fields(&self) -> (f: SongFields)
        ensures
            f.song_name@ == self.view()[key_hash(attribute_names()[0])].1,
            f.artist_name@ == self.view()[key_hash(attribute_names()[1])].1,
            f.album_name@ == self.view()[key_hash(attribute_names()[2])].1,
            f.position@ == self.view()[key_hash(attribute_names()[3])].1,
    {
        proof {
            use_type_invariant(self);
        }
        assert(self.view().dom().contains(key_hash(attribute_names()[0])));
        assert(self.view().dom().contains(key_hash(attribute_names()[1])));
        assert(self.view().dom().contains(key_hash(attribute_names()[2])));
        assert(self.view().dom().contains(key_hash(attribute_names()[3])));
        let song_name = self.get("song_name").unwrap();
        let artist_name = self.get("artist_name").unwrap();
        let album_name = self.get("album_name").unwrap();
        let position = self.get("position").unwrap();
        SongFields { song_name, artist_name, album_name, position }
    }
}

} // verus!
