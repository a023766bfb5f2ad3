//! The cache of encoded volume dials, one image for each mix and percent, and
//! the layout of the file that keeps it between runs.
//!
//! The file is a run of records: one byte for the mix, one for the percent,
//! the length of the image as four bytes, least significant first, then the
//! image.  A file that ends inside a record, or names a mix that does not
//! exist, holds no cache at all.

use crate::channel::Mix;
use std::collections::HashMap;
use vstd::prelude::*;

verus! {

broadcast use vstd::std_specs::hash::group_hash_axioms;

/// Number of keys there can be: two mixes, 256 percent values each.
pub const SLOT_COUNT: usize = 512;

/// Highest percent a warm cache has to hold.
pub const MAX_PERCENT: u8 = 100;

/// Bytes before the image in a record.
pub const HEADER_LEN: usize = 6;

/// Why a cache file cannot be read or written.
#[derive(Debug, Clone, Copy, PartialEq, Eq, Structural)]
pub enum CacheError {
    /// The file ends inside a record.
    Truncated,
    /// A record names a mix that does not exist.
    UnknownMix(u8),
    /// An image is too long for the four bytes that hold its length.
    EntryTooLarge,
}

/// The content of a cache: the encoded image of each mix and percent.
pub type CacheModel = Map<(Mix, u8), Seq<u8>>;

/// The byte that stands for `mix` in the file.
pub open spec fn mix_byte(mix: Mix) -> u8 {
    match mix {
        Mix::A => 0,
        Mix::B => 1,
    }
}

/// The mix that `byte` stands for, if any.
pub open spec fn mix_of_byte(byte: u8) -> Option<Mix> {
    if byte == 0 {
        Some(Mix::A)
    } else if byte == 1 {
        Some(Mix::B)
    } else {
        None
    }
}

/// The number that four bytes hold, least significant first.
pub open spec fn length_of_bytes(b0: u8, b1: u8, b2: u8, b3: u8) -> int {
    b0 + 256 * b1 + 65536 * b2 + 16777216 * b3
}

/// The four bytes that hold `length`, least significant first.
pub open spec fn bytes_of_length(length: int) -> Seq<u8> {
    seq![
        (length % 256) as u8,
        (length / 256 % 256) as u8,
        (length / 65536 % 256) as u8,
        (length / 16777216 % 256) as u8,
    ]
}

/// One record of the file.
pub open spec fn record(mix: Mix, percent: u8, image: Seq<u8>) -> Seq<u8> {
    seq![mix_byte(mix), percent] + bytes_of_length(image.len() as int) + image
}

/// The cache that results from reading the records in `bytes` into
/// `cache`, a later record replacing an earlier one for the same mix and
/// percent; or why the bytes are no run of records.
pub open spec fn parse_records(bytes: Seq<u8>, cache: CacheModel) -> Result<CacheModel, CacheError>
    decreases bytes.len(),
{
    if bytes.len() == 0 {
        Ok(cache)
    } else if bytes.len() < HEADER_LEN {
        Err(CacheError::Truncated)
    } else {
        match mix_of_byte(bytes[0]) {
            None => Err(CacheError::UnknownMix(bytes[0])),
            Some(mix) => {
                let length = length_of_bytes(bytes[2], bytes[3], bytes[4], bytes[5]);
                if bytes.len() < HEADER_LEN + length {
                    Err(CacheError::Truncated)
                } else {
                    parse_records(
                        bytes.subrange(HEADER_LEN + length, bytes.len() as int),
                        cache.insert((mix, bytes[1]), bytes.subrange(HEADER_LEN as int, HEADER_LEN + length)),
                    )
                }
            },
        }
    }
}

/// The mix and percent that stand at place `index` in the order of the
/// file: mix A before mix B, each by rising percent.
pub open spec fn key_at(index: int) -> (Mix, u8) {
    (
        if index < 256 {
            Mix::A
        } else {
            Mix::B
        },
        (index % 256) as u8,
    )
}

/// The place of `key` in the order of the file.
pub open spec fn index_of(key: (Mix, u8)) -> int {
    mix_byte(key.0) * 256 + key.1
}

/// The records of the entries of `cache` from place `from` on, mix A before
/// mix B and each mix by rising percent.
pub open spec fn encode_from(cache: CacheModel, from: int) -> Seq<u8>
    decreases SLOT_COUNT - from,
{
    if from < 0 || from >= SLOT_COUNT {
        Seq::empty()
    } else {
        let key = key_at(from);
        let head = if cache.contains_key(key) {
            record(key.0, key.1, cache[key])
        } else {
            Seq::empty()
        };
        head + encode_from(cache, from + 1)
    }
}

/// The file that holds `cache`.
pub open spec fn encode_cache(cache: CacheModel) -> Seq<u8> {
    encode_from(cache, 0)
}

/// True when every image of `cache` has a length that four bytes can hold.
pub open spec fn encodable(cache: CacheModel) -> bool {
    forall|key: (Mix, u8)| cache.contains_key(key) ==> (#[trigger] cache[key]).len() <= u32::MAX
}

/// True when `cache` holds an image for both mixes at every percent from 0
/// to 100.
pub open spec fn warm(cache: CacheModel) -> bool {
    forall|mix: Mix, percent: u8|
        percent <= MAX_PERCENT ==> #[trigger] cache.contains_key((mix, percent))
}

/// True when `cache` holds no image above 100 percent.
pub open spec fn only_dials(cache: CacheModel) -> bool {
    forall|mix: Mix, percent: u8|
        #[trigger] cache.contains_key((mix, percent)) ==> percent <= MAX_PERCENT
}

/// True when `cache` holds exactly the dials: an image for both mixes at
/// every percent from 0 to 100, and no other.
pub open spec fn complete(cache: CacheModel) -> bool {
    warm(cache) && only_dials(cache)
}

/// The key that stands at place `place` among the dials: the 101 dials of mix
/// A, then the 101 of mix B.
pub open spec fn dial_at(place: int) -> (Mix, u8) {
    if place <= MAX_PERCENT {
        (Mix::A, place as u8)
    } else {
        (Mix::B, (place - MAX_PERCENT - 1) as u8)
    }
}

/// A cache that holds exactly the dials holds two times 101 images.
pub proof fn lemma_complete_cache_size(cache: CacheModel)
    requires
        complete(cache),
    ensures
        cache.dom().finite(),
        cache.dom().len() == 2 * (MAX_PERCENT + 1),
{
    let places = vstd::set_lib::set_int_range(0, 202);
    let at = |place: int| dial_at(place);
    vstd::set_lib::lemma_int_range(0, 202);
    assert forall|key: (Mix, u8)| cache.dom().contains(key) implies places.map(at).contains(key) by {
        assert(cache.contains_key((key.0, key.1)));
        let place = match key.0 {
            Mix::A => key.1 as int,
            Mix::B => key.1 + MAX_PERCENT + 1,
        };
        assert(places.contains(place) && at(place) == key);
    }
    assert forall|key: (Mix, u8)| places.map(at).contains(key) implies cache.dom().contains(key) by {
        let place = choose|place: int| places.contains(place) && at(place) == key;
        assert(cache.contains_key((key.0, key.1)));
    }
    assert(places.map(at) =~= cache.dom());
    assert(vstd::relations::injective_on(at, places)) by {
        assert forall|a: int, b: int|
            places.contains(a) && places.contains(b) && #[trigger] at(a) == #[trigger] at(
                b,
            ) implies a == b by {}
    }
    vstd::set_lib::lemma_map_size(places, cache.dom(), at);
}

/// Four bytes that hold a length give that length back.
pub proof fn lemma_length_round_trip(length: int)
    requires
        0 <= length <= u32::MAX,
    ensures
        bytes_of_length(length).len() == 4,
        length_of_bytes(
            bytes_of_length(length)[0],
            bytes_of_length(length)[1],
            bytes_of_length(length)[2],
            bytes_of_length(length)[3],
        ) == length,
{
    assert(length / 16777216 < 256);
}

/// Every place in the order belongs to one key, and every key to one place.
pub proof fn lemma_keys_and_places()
    ensures
        forall|key: (Mix, u8)| 0 <= #[trigger] index_of(key) < SLOT_COUNT && key_at(index_of(key)) == key,
        forall|index: int| 0 <= index < SLOT_COUNT ==> index_of(#[trigger] key_at(index)) == index,
{
}

/// Reading a record followed by more bytes puts the record's image into the
/// cache and goes on with the bytes that follow.
pub proof fn lemma_parse_record(
    mix: Mix,
    percent: u8,
    image: Seq<u8>,
    rest: Seq<u8>,
    cache: CacheModel,
)
    requires
        image.len() <= u32::MAX,
    ensures
        parse_records(record(mix, percent, image) + rest, cache) == parse_records(
            rest,
            cache.insert((mix, percent), image),
        ),
{
    let bytes = record(mix, percent, image) + rest;
    lemma_length_round_trip(image.len() as int);
    let length_bytes = bytes_of_length(image.len() as int);
    assert(bytes[0] == mix_byte(mix));
    assert(bytes[1] == percent);
    assert(bytes[2] == length_bytes[0]);
    assert(bytes[3] == length_bytes[1]);
    assert(bytes[4] == length_bytes[2]);
    assert(bytes[5] == length_bytes[3]);
    assert(bytes.subrange(HEADER_LEN as int, HEADER_LEN + image.len()) =~= image);
    assert(bytes.subrange(HEADER_LEN + image.len(), bytes.len() as int) =~= rest);
}

/// `cache` with the entries of `added` that stand at place `from` or later
/// put over it.
pub open spec fn overlaid(cache: CacheModel, added: CacheModel, from: int) -> CacheModel {
    Map::new(
        |key: (Mix, u8)|
            cache.contains_key(key) || (added.contains_key(key) && index_of(key) >= from),
        |key: (Mix, u8)|
            if added.contains_key(key) && index_of(key) >= from {
                added[key]
            } else {
                cache[key]
            },
    )
}

/// Reading what was written for the places from `from` on puts exactly those
/// entries over the cache read so far.
pub proof fn lemma_round_trip_from(added: CacheModel, from: int, cache: CacheModel)
    requires
        0 <= from <= SLOT_COUNT,
        encodable(added),
    ensures
        parse_records(encode_from(added, from), cache) == Ok::<CacheModel, CacheError>(
            overlaid(cache, added, from),
        ),
    decreases SLOT_COUNT - from,
{
    lemma_keys_and_places();
    if from >= SLOT_COUNT {
        assert(encode_from(added, from) =~= Seq::<u8>::empty());
        assert(overlaid(cache, added, from) =~= cache);
    } else {
        let key = key_at(from);
        let rest = encode_from(added, from + 1);
        if added.contains_key(key) {
            let next = cache.insert(key, added[key]);
            lemma_parse_record(key.0, key.1, added[key], rest, cache);
            lemma_round_trip_from(added, from + 1, next);
            assert(overlaid(next, added, from + 1) =~= overlaid(cache, added, from)) by {
                assert forall|k: (Mix, u8)| index_of(k) == from implies k == key by {}
            }
        } else {
            assert(encode_from(added, from) =~= rest);
            lemma_round_trip_from(added, from + 1, cache);
            assert(overlaid(cache, added, from + 1) =~= overlaid(cache, added, from)) by {
                assert forall|k: (Mix, u8)| index_of(k) == from implies k == key by {}
            }
        }
    }
}

/// Writing a cache and reading the file back gives the same cache: for every
/// mix and percent the same image, byte for byte, and no other entry.
pub proof fn lemma_cache_round_trip(cache: CacheModel)
    requires
        encodable(cache),
    ensures
        parse_records(encode_cache(cache), Map::empty()) == Ok::<CacheModel, CacheError>(cache),
{
    lemma_round_trip_from(cache, 0, Map::empty());
    lemma_keys_and_places();
    assert(overlaid(Map::empty(), cache, 0) =~= cache);
}

/// The encoded volume dials, by mix and percent.
#[derive(Debug, Clone)]
pub struct DialImageCache {
    mix_a: HashMap<u8, Vec<u8>>,
    mix_b: HashMap<u8, Vec<u8>>,
}

impl View for DialImageCache {
    type V = CacheModel;

    closed spec fn view(&self) -> CacheModel {
        Map::new(
            |key: (Mix, u8)|
                match key.0 {
                    Mix::A => self.mix_a@.contains_key(key.1),
                    Mix::B => self.mix_b@.contains_key(key.1),
                },
            |key: (Mix, u8)|
                match key.0 {
                    Mix::A => self.mix_a@[key.1]@,
                    Mix::B => self.mix_b@[key.1]@,
                },
        )
    }
}

/// Home of the routines that build, store and load the dial cache.
pub struct DialHandler;

/// Appends `bytes` to `out`.
fn append_bytes(out: &mut Vec<u8>, bytes: &Vec<u8>)
    ensures
        final(out)@ == old(out)@ + bytes@,
{
    let mut i: usize = 0;
    while i < bytes.len()
        invariant
            i <= bytes.len(),
            out@ == old(out)@ + bytes@.subrange(0, i as int),
        decreases bytes.len() - i,
    {
        out.push(bytes[i]);
        i += 1;
        assert(out@ =~= old(out)@ + bytes@.subrange(0, i as int));
    }
    assert(bytes@.subrange(0, bytes@.len() as int) =~= bytes@);
}

/// The bytes of `bytes` from `from` up to `to`.
fn copy_range(bytes: &Vec<u8>, from: usize, to: usize) -> (out: Vec<u8>)
    requires
        from <= to <= bytes@.len(),
    ensures
        out@ == bytes@.subrange(from as int, to as int),
{
    let mut out: Vec<u8> = Vec::with_capacity(to - from);
    let mut i: usize = from;
    while i < to
        invariant
            from <= i <= to,
            to <= bytes@.len(),
            out@ == bytes@.subrange(from as int, i as int),
        decreases to - i,
    {
        out.push(bytes[i]);
        i += 1;
        assert(out@ =~= bytes@.subrange(from as int, i as int));
    }
    out
}

impl DialImageCache {
    /// A cache without entries.
    pub fn new() -> (cache: DialImageCache)
        ensures
            cache@ == Map::<(Mix, u8), Seq<u8>>::empty(),
    {
        let cache = DialImageCache { mix_a: HashMap::new(), mix_b: HashMap::new() };
        assert(cache@ =~= Map::<(Mix, u8), Seq<u8>>::empty());
        cache
    }

    /// Stores `image` for `mix` at `percent`, in place of what was there.
    pub fn insert(&mut self, mix: Mix, percent: u8, image: Vec<u8>)
        ensures
            final(self)@ == old(self)@.insert((mix, percent), image@),
    {
        let ghost bytes = image@;
        match mix {
            Mix::A => {
                self.mix_a.insert(percent, image);
            },
            Mix::B => {
                self.mix_b.insert(percent, image);
            },
        }
        assert(self@ =~= old(self)@.insert((mix, percent), bytes));
    }

    /// The image stored for `mix` at `percent`, if there is one.
    pub fn get(&self, mix: Mix, percent: u8) -> (image: Option<&Vec<u8>>)
        ensures
            image is Some <==> self@.contains_key((mix, percent)),
            image matches Some(bytes) ==> bytes@ == self@[(mix, percent)],
    {
        match mix {
            Mix::A => self.mix_a.get(&percent),
            Mix::B => self.mix_b.get(&percent),
        }
    }

    /// True when an image is stored for `mix` at every percent up to 100.
    fn mix_is_warm(&self, mix: Mix) -> (full: bool)
        ensures
            full == forall|percent: u8|
                percent <= MAX_PERCENT ==> #[trigger] self@.contains_key((mix, percent)),
    {
        let mut percent: u8 = 0;
        while percent <= MAX_PERCENT
            invariant
                percent <= MAX_PERCENT + 1,
                forall|p: u8| p < percent ==> #[trigger] self@.contains_key((mix, p)),
            decreases MAX_PERCENT + 1 - percent,
        {
            if self.get(mix, percent).is_none() {
                return false;
            }
            percent += 1;
        }
        true
    }

    /// True when no image is stored for `mix` above 100 percent.
    fn mix_holds_only_dials(&self, mix: Mix) -> (only: bool)
        ensures
            only == forall|percent: u8| #[trigger]
                self@.contains_key((mix, percent)) ==> percent <= MAX_PERCENT,
    {
        let mut percent: u8 = u8::MAX;
        while percent > MAX_PERCENT
            invariant
                percent >= MAX_PERCENT,
                forall|p: u8| p > percent ==> !(#[trigger] self@.contains_key((mix, p))),
            decreases percent,
        {
            if self.get(mix, percent).is_some() {
                return false;
            }
            percent -= 1;
        }
        true
    }

    /// True when the cache holds no image above 100 percent.
    pub fn holds_only_dials(&self) -> (only: bool)
        ensures
            only == only_dials(self@),
    {
        let a = self.mix_holds_only_dials(Mix::A);
        let b = self.mix_holds_only_dials(Mix::B);
        proof {
            if a && b {
                assert forall|mix: Mix, percent: u8| #[trigger]
                    self@.contains_key((mix, percent)) implies percent <= MAX_PERCENT by {
                    match mix {
                        Mix::A => {},
                        Mix::B => {},
                    }
                }
            }
        }
        a && b
    }

    /// True when the cache holds an image for both mixes at every percent
    /// from 0 to 100.
    pub fn is_warm(&self) -> (full: bool)
        ensures
            full == warm(self@),
    {
        let a = self.mix_is_warm(Mix::A);
        let b = self.mix_is_warm(Mix::B);
        proof {
            if a && b {
                assert forall|mix: Mix, percent: u8| percent <= MAX_PERCENT implies #[trigger] self@.contains_key(
                    (mix, percent),
                ) by {
                    match mix {
                        Mix::A => {},
                        Mix::B => {},
                    }
                }
            }
        }
        a && b
    }
}

impl DialHandler {
    /// The file that holds `cache`: a record for each entry, mix A before
    /// mix B and each mix by rising percent.  Fails where an image is too
    /// long for a record.
    pub fn save_cache(cache: &DialImageCache) -> (file: Result<Vec<u8>, CacheError>)
        ensures
            file is Ok <==> encodable(cache@),
            file matches Ok(bytes) ==> bytes@ == encode_cache(cache@),
            file matches Err(e) ==> e == CacheError::EntryTooLarge,
    {
        let mut out: Vec<u8> = Vec::new();
        let mut index: usize = 0;
        proof {
            lemma_keys_and_places();
        }
        while index < SLOT_COUNT
            invariant
                index <= SLOT_COUNT,
                out@ + encode_from(cache@, index as int) == encode_cache(cache@),
                forall|key: (Mix, u8)|
                    cache@.contains_key(key) && index_of(key) < index ==> (#[trigger] cache@[key]).len()
                        <= u32::MAX,
            decreases SLOT_COUNT - index,
        {
            let ghost key = key_at(index as int);
            let ghost before = out@;
            proof {
                lemma_keys_and_places();
            }
            let mix = if index < 256 {
                Mix::A
            } else {
                Mix::B
            };
            let percent: u8 = (index % 256) as u8;
            assert((mix, percent) == key);
            match cache.get(mix, percent) {
                None => {
                    assert(encode_from(cache@, index as int) =~= encode_from(
                        cache@,
                        index as int + 1,
                    ));
                },
                Some(image) => {
                    assert(cache@.contains_key(key) && cache@[key] == image@);
                    if image.len() > u32::MAX as usize {
                        return Err(CacheError::EntryTooLarge);
                    }
                    let length = image.len();
                    out.push(if index < 256 { 0 } else { 1 });
                    out.push((index % 256) as u8);
                    out.push((length % 256) as u8);
                    out.push((length / 256 % 256) as u8);
                    out.push((length / 65536 % 256) as u8);
                    out.push((length / 16777216 % 256) as u8);
                    append_bytes(&mut out, image);
                    assert(out@ =~= before + record(key.0, key.1, image@));
                    assert(before + record(key.0, key.1, image@) + encode_from(
                        cache@,
                        index as int + 1,
                    ) =~= before + encode_from(cache@, index as int));
                },
            }
            index += 1;
        }
        assert(out@ + encode_from(cache@, SLOT_COUNT as int) =~= out@);
        Ok(out)
    }

    /// The cache that `file` holds.  Fails where the file ends inside a
    /// record or names a mix that does not exist; nothing is loaded then.
    pub fn load_cache(file: &Vec<u8>) -> (cache: Result<DialImageCache, CacheError>)
        ensures
            match parse_records(file@, Map::empty()) {
                Ok(model) => cache matches Ok(c) && c@ == model,
                Err(error) => cache matches Err(e) && e == error,
            },
    {
        let mut cache = DialImageCache::new();
        let mut position: usize = 0;
        assert(file@.subrange(0, file@.len() as int) =~= file@);
        while position < file.len()
            invariant
                position <= file@.len(),
                parse_records(file@, Map::empty()) == parse_records(
                    file@.subrange(position as int, file@.len() as int),
                    cache@,
                ),
            decreases file@.len() - position,
        {
            let ghost rest = file@.subrange(position as int, file@.len() as int);
            let left: usize = file.len() - position;
            if left < HEADER_LEN {
                return Err(CacheError::Truncated);
            }
            let mix_code = file[position];
            assert(rest[0] == mix_code);
            let mix = if mix_code == 0 {
                Mix::A
            } else if mix_code == 1 {
                Mix::B
            } else {
                return Err(CacheError::UnknownMix(mix_code));
            };
            let percent = file[position + 1];
            let length: usize = file[position + 2] as usize + 256 * (file[position + 3] as usize)
                + 65536 * (file[position + 4] as usize) + 16777216 * (file[position + 5] as usize);
            assert(rest[1] == percent);
            assert(length == length_of_bytes(rest[2], rest[3], rest[4], rest[5]));
            if left - HEADER_LEN < length {
                return Err(CacheError::Truncated);
            }
            let start: usize = position + HEADER_LEN;
            let image = copy_range(file, start, start + length);
            assert(image@ =~= rest.subrange(HEADER_LEN as int, HEADER_LEN + length));
            assert(file@.subrange(start + length, file@.len() as int) =~= rest.subrange(
                HEADER_LEN + length,
                rest.len() as int,
            ));
            cache.insert(mix, percent, image);
            position = start + length;
        }
        assert(file@.subrange(position as int, file@.len() as int).len() == 0);
        Ok(cache)
    }

    /// The cache to use, given what the cache file holds (`None` where there
    /// is no file or it cannot be read): the stored cache where the file is
    /// a run of records that holds exactly the dials, one for each mix and
    /// each percent from 0 to 100.  Else `None`, and every dial has to be
    /// generated anew.
    pub fn composite_dials(stored: Option<&Vec<u8>>) -> (cache: Option<DialImageCache>)
        ensures
            match stored {
                Some(file) => match parse_records(file@, Map::empty()) {
                    Ok(model) => if complete(model) {
                        cache matches Some(c) && c@ == model
                    } else {
                        cache is None
                    },
                    Err(_) => cache is None,
                },
                None => cache is None,
            },
    {
        match stored {
            None => None,
            Some(file) => match Self::load_cache(file) {
                Err(_) => None,
                Ok(cache) => if cache.is_warm() && cache.holds_only_dials() {
                    Some(cache)
                } else {
                    None
                },
            },
        }
    }
}

} // verus!
