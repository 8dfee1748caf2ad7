//! The table of map names. A map's id is its position in the table,
//! counted from 1.

use vstd::prelude::*;
use vstd::utf8::encode_utf8;
use crate::codec::{fill_padded, lemma_padded_len, padded, EncodeFixed};

verus! {

/// The name of a map, as text.
#[derive(Debug, PartialEq, Eq, Hash)]
pub struct MapName(pub String);

impl View for MapName {
    type V = Seq<char>;

    open spec fn view(&self) -> Seq<char> {
        self.0@
    }
}

impl Clone for MapName {
    fn clone(&self) -> (copy: Self)
        ensures
            copy == *self,
    {
        MapName(self.0.clone())
    }
}

impl MapName {
    /// Width of a map name on the wire.
    pub const SIZE: usize = 16;

    /// The map name with the text `name`.
    pub fn new(name: String) -> (map_name: MapName)
        ensures
            map_name@ == name@,
    {
        MapName(name)
    }

    /// The name as bytes.
    pub fn as_bytes(&self) -> (bytes: &[u8])
        ensures
            bytes@ == encode_utf8(self@),
    {
        self.0.as_str().as_bytes()
    }

    /// Whether two names are the same text.
    pub fn same(&self, other: &MapName) -> (yes: bool)
        ensures
            yes == (self@ == other@),
    {
        self.0 == other.0
    }
}

impl EncodeFixed for MapName {
    open spec fn wire(&self) -> Seq<u8> {
        padded(encode_utf8(self@), 16)
    }

    fn size(&self) -> (n: usize) {
        proof {
            lemma_padded_len(encode_utf8(self@), 16);
        }
        16
    }

    fn encode(&self, buf: &mut [u8]) {
        proof {
            lemma_padded_len(encode_utf8(self@), 16);
        }
        fill_padded(buf, self.as_bytes());
    }
}

/// The table of map names. Ids are positions in the list, counted from 1. A
/// name is looked up by walking the list from its end, so that the last of
/// equal names counts, as in a map from name to id that is filled in the
/// order of the list.
pub struct Maps {
    pub maps: Vec<MapName>,
}

/// The last position of `names` that holds the text `name`, or -1.
pub open spec fn last_position(names: Seq<MapName>, name: Seq<char>) -> int
    decreases names.len(),
{
    if names.len() == 0 {
        -1
    } else if names.last()@ == name {
        names.len() - 1
    } else {
        last_position(names.drop_last(), name)
    }
}

/// `last_position` is a position that holds the name, and no later one
/// does; it is -1 exactly if no position holds the name.
pub proof fn lemma_last_position(names: Seq<MapName>, name: Seq<char>)
    ensures
        -1 <= last_position(names, name) < names.len(),
        last_position(names, name) >= 0 ==> names[last_position(names, name)]@ == name,
        forall|j: int| last_position(names, name) < j < names.len() ==> names[j]@ != name,
    decreases names.len(),
{
    if names.len() == 0 {
    } else if names.last()@ == name {
    } else {
        lemma_last_position(names.drop_last(), name);
        assert forall|j: int| last_position(names, name) < j < names.len() implies names[j]@
            != name by {
            if j < names.len() - 1 {
                assert(names.drop_last()[j] == names[j]);
            }
        }
    }
}

/// The position that holds the name and is followed by none that does is
/// `last_position`.
pub proof fn lemma_last_position_is(names: Seq<MapName>, name: Seq<char>, at: int)
    requires
        -1 <= at < names.len(),
        at >= 0 ==> names[at]@ == name,
        forall|j: int| at < j < names.len() ==> names[j]@ != name,
    ensures
        last_position(names, name) == at,
    decreases names.len(),
{
    if names.len() == 0 {
    } else if names.last()@ == name {
    } else {
        let front = names.drop_last();
        assert forall|j: int| at < j < front.len() implies front[j]@ != name by {
            assert(front[j] == names[j]);
        }
        if at >= 0 {
            assert(front[at] == names[at]);
        }
        lemma_last_position_is(front, name, at);
    }
}

impl Clone for Maps {
    fn clone(&self) -> (copy: Self)
        ensures
            copy.names() == self.names(),
    {
        let mut names: Vec<MapName> = Vec::new();
        let mut i: usize = 0;
        while i < self.maps.len()
            invariant
                i <= self.maps@.len(),
                names@ == self.maps@.take(i as int),
            decreases self.maps@.len() - i,
        {
            names.push(self.maps[i].clone());
            i = i + 1;
            assert(names@ =~= self.maps@.take(i as int));
        }
        assert(self.maps@.take(self.maps@.len() as int) =~= self.maps@);
        Maps { maps: names }
    }
}

impl Maps {
    /// The names, in the order of their ids.
    pub open spec fn names(&self) -> Seq<MapName> {
        self.maps@
    }

    /// The table of `names`: the first has id 1.
    pub fn new(names: Vec<MapName>) -> (maps: Maps)
        ensures
            maps.names() == names@,
    {
        Maps { maps: names }
    }

    /// The name of map `id`.
    pub fn name(&self, id: u16) -> (name: Option<MapName>)
        ensures
            1 <= id <= self.names().len() ==> name == Some(self.names()[id - 1]),
            !(1 <= id <= self.names().len()) ==> name is None,
    {
        if id >= 1 && (id as usize) <= self.maps.len() {
            Some(self.maps[(id - 1) as usize].clone())
        } else {
            None
        }
    }

    /// The id of the map called `name`: the last one, if several maps are
    /// called so. A map beyond the 65535th has no id.
    pub fn id(&self, name: &MapName) -> (id: Option<u16>)
        ensures
            ({
                let at = last_position(self.names(), name@);
                &&& 0 <= at < 65535 ==> id == Some((at + 1) as u16)
                &&& !(0 <= at < 65535) ==> id is None
            }),
    {
        let mut i: usize = self.maps.len();
        while i > 0
            invariant
                i <= self.maps@.len(),
                forall|j: int| i <= j < self.maps@.len() ==> self.maps@[j]@ != name@,
            decreases i,
        {
            i = i - 1;
            if self.maps[i].same(name) {
                proof {
                    lemma_last_position_is(self.maps@, name@, i as int);
                }
                if i < 65535 {
                    return Some((i + 1) as u16);
                } else {
                    return None;
                }
            }
        }
        proof {
            lemma_last_position_is(self.maps@, name@, -1);
        }
        None
    }
}

/// A map's id leads back to a map of its name.
pub proof fn lemma_id_names_the_map(names: Seq<MapName>, name: Seq<char>)
    requires
        last_position(names, name) >= 0,
    ensures
        names[last_position(names, name)]@ == name,
{
    lemma_last_position(names, name);
}

/// In a table whose names differ from one another, names and ids
/// correspond one to one: the id of the name of map `i + 1` is `i + 1`.
pub proof fn lemma_names_and_ids_correspond(names: Seq<MapName>, i: int)
    requires
        0 <= i < names.len(),
        forall|a: int, b: int| 0 <= a < b < names.len() ==> names[a]@ != names[b]@,
    ensures
        last_position(names, names[i]@) == i,
{
    lemma_last_position_is(names, names[i]@, i);
}

} // verus!
