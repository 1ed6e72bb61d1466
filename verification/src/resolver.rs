//! Selection of the latest firmware from a bucket listing.
//!
//! Version tags are compared as strings, not as numbers: `"10.0"` comes
//! before `"9.0"`, and a listing that holds both `V2.0` and `V10.0` has
//! `2.0` as its latest version. Devices in the field rely on this order.

use vstd::prelude::*;
use crate::order::{
    lemma_text_le_antisymmetric, lemma_text_le_reflexive, lemma_text_le_total,
    lemma_text_le_transitive, str_le, text_le, text_lt,
};
use crate::pattern::{extract_version, version_of};

verus! {

/// An object of the firmware bucket together with the version tag found in
/// its key.
#[derive(Debug, PartialEq, Eq)]
pub struct FirmwareObject {
    pub key: String,
    pub version_tag: String,
}

/// A firmware object as contracts see it.
pub struct FirmwareObjectView {
    pub key: Seq<char>,
    pub version_tag: Seq<char>,
}

impl View for FirmwareObject {
    type V = FirmwareObjectView;

    open spec fn view(&self) -> FirmwareObjectView {
        FirmwareObjectView { key: self.key@, version_tag: self.version_tag@ }
    }
}

/// The texts of a vector of strings.
pub open spec fn texts(v: Seq<String>) -> Seq<Seq<char>> {
    Seq::new(v.len(), |i: int| v[i]@)
}

/// The views of a vector of firmware objects.
pub open spec fn object_views(v: Seq<FirmwareObject>) -> Seq<FirmwareObjectView> {
    Seq::new(v.len(), |i: int| v[i]@)
}

/// The firmware objects of a listing: one for each key that carries a
/// version tag, in listing order. Other keys are passed over.
pub open spec fn matching_objects(listing: Seq<Seq<char>>) -> Seq<FirmwareObjectView>
    decreases listing.len(),
{
    if listing.len() == 0 {
        Seq::empty()
    } else {
        let before = matching_objects(listing.drop_last());
        match version_of(listing.last()) {
            Some(tag) => before.push(FirmwareObjectView { key: listing.last(), version_tag: tag }),
            None => before,
        }
    }
}

/// `x` is no later than `y`: its tag comes earlier, or the tags are equal
/// and its key is no later.
pub open spec fn object_le(x: FirmwareObjectView, y: FirmwareObjectView) -> bool {
    text_lt(x.version_tag, y.version_tag) || (x.version_tag == y.version_tag && text_le(
        x.key,
        y.key,
    ))
}

/// `best` is one of `objects` and none of them is later.
pub open spec fn is_latest(objects: Seq<FirmwareObjectView>, best: FirmwareObjectView) -> bool {
    &&& objects.contains(best)
    &&& forall|i: int| 0 <= i < objects.len() ==> object_le(#[trigger] objects[i], best)
}

/// The latest of `objects`, if there is any object at all.
pub open spec fn latest(objects: Seq<FirmwareObjectView>) -> Option<FirmwareObjectView> {
    if exists|o: FirmwareObjectView| is_latest(objects, o) {
        Some(choose|o: FirmwareObjectView| is_latest(objects, o))
    } else {
        None
    }
}

/// The version tag that a listing resolves to.
pub open spec fn latest_tag(listing: Seq<Seq<char>>) -> Option<Seq<char>> {
    match latest(matching_objects(listing)) {
        Some(o) => Some(o.version_tag),
        None => None,
    }
}

/// The key of the object that a listing resolves to.
pub open spec fn latest_key(listing: Seq<Seq<char>>) -> Option<Seq<char>> {
    match latest(matching_objects(listing)) {
        Some(o) => Some(o.key),
        None => None,
    }
}

/// Two latest objects of one sequence are the same object.
pub proof fn lemma_latest_unique(
    objects: Seq<FirmwareObjectView>,
    a: FirmwareObjectView,
    b: FirmwareObjectView,
)
    requires
        is_latest(objects, a),
        is_latest(objects, b),
    ensures
        a == b,
{
    let i = choose|i: int| 0 <= i < objects.len() && objects[i] == a;
    let j = choose|j: int| 0 <= j < objects.len() && objects[j] == b;
    assert(object_le(objects[i], b));
    assert(object_le(objects[j], a));
    if a.version_tag != b.version_tag {
        lemma_text_le_antisymmetric(a.version_tag, b.version_tag);
    } else {
        lemma_text_le_antisymmetric(a.key, b.key);
    }
}

/// `latest` is `None` on the empty sequence and nowhere else, and what it
/// returns is the one latest object.
pub proof fn lemma_latest_characterized(objects: Seq<FirmwareObjectView>)
    ensures
        latest(objects) is None <==> objects.len() == 0,
        latest(objects) matches Some(o) ==> is_latest(objects, o),
    decreases objects.len(),
{
    if objects.len() == 0 {
        assert forall|o: FirmwareObjectView| !is_latest(objects, o) by {
            assert(!objects.contains(o));
        }
    } else {
        let w = lemma_latest_exists(objects);
    }
}

proof fn lemma_object_le_total(x: FirmwareObjectView, y: FirmwareObjectView)
    ensures
        object_le(x, y) || object_le(y, x),
{
    lemma_text_le_total(x.version_tag, y.version_tag);
    lemma_text_le_total(x.key, y.key);
}

proof fn lemma_object_le_transitive(
    x: FirmwareObjectView,
    y: FirmwareObjectView,
    z: FirmwareObjectView,
)
    requires
        object_le(x, y),
        object_le(y, z),
    ensures
        object_le(x, z),
{
    lemma_text_le_reflexive(x.version_tag);
    lemma_text_le_reflexive(y.version_tag);
    lemma_text_le_transitive(x.version_tag, y.version_tag, z.version_tag);
    if x.version_tag == z.version_tag {
        lemma_text_le_antisymmetric(x.version_tag, y.version_tag);
        lemma_text_le_transitive(x.key, y.key, z.key);
    }
}

proof fn lemma_latest_exists(objects: Seq<FirmwareObjectView>) -> (w: FirmwareObjectView)
    requires
        objects.len() > 0,
    ensures
        is_latest(objects, w),
    decreases objects.len(),
{
    let last = objects.last();
    let front = objects.drop_last();
    if front.len() == 0 {
        lemma_text_le_reflexive(last.key);
        assert(objects[0] == last);
        last
    } else {
        let v = lemma_latest_exists(front);
        let k = choose|k: int| 0 <= k < front.len() && front[k] == v;
        assert(objects[k] == v);
        lemma_object_le_total(v, last);
        if object_le(last, v) {
            assert forall|i: int| 0 <= i < objects.len() implies object_le(
                #[trigger] objects[i],
                v,
            ) by {
                if i < front.len() {
                    assert(front[i] == objects[i]);
                }
            }
            v
        } else {
            lemma_text_le_reflexive(last.key);
            assert forall|i: int| 0 <= i < objects.len() implies object_le(
                #[trigger] objects[i],
                last,
            ) by {
                if i < front.len() {
                    assert(front[i] == objects[i]);
                    lemma_object_le_transitive(objects[i], v, last);
                }
            }
            assert(objects[objects.len() - 1] == last);
            last
        }
    }
}


/// What a key contributes to a listing: `o` is among the firmware objects
/// of `listing` exactly when its key is listed and carries its tag.
pub open spec fn listed_with_tag(listing: Seq<Seq<char>>, o: FirmwareObjectView) -> bool {
    listing.contains(o.key) && version_of(o.key) == Some(o.version_tag)
}

/// The firmware objects of a listing are its keys that carry a tag, each
/// with that tag, and nothing else.
pub proof fn lemma_matching_objects_members(listing: Seq<Seq<char>>)
    ensures
        forall|o: FirmwareObjectView| #[trigger]
            matching_objects(listing).contains(o) <==> listed_with_tag(listing, o),
    decreases listing.len(),
{
    if listing.len() == 0 {
        assert forall|o: FirmwareObjectView| #[trigger]
            matching_objects(listing).contains(o) <==> listed_with_tag(listing, o) by {
            assert(!matching_objects(listing).contains(o));
            assert(!listing.contains(o.key));
        }
    } else {
        let front = listing.drop_last();
        let last = listing.last();
        let before = matching_objects(front);
        lemma_matching_objects_members(front);
        assert forall|o: FirmwareObjectView| #[trigger]
            matching_objects(listing).contains(o) <==> listed_with_tag(listing, o) by {
            let all = matching_objects(listing);
            if all.contains(o) {
                let k = choose|k: int| 0 <= k < all.len() && all[k] == o;
                if k < before.len() {
                    assert(before[k] == o);
                    assert(before.contains(o));
                    let j = choose|j: int| 0 <= j < front.len() && front[j] == o.key;
                    assert(listing[j] == o.key);
                } else {
                    assert(listing[listing.len() - 1] == o.key);
                }
            }
            if listed_with_tag(listing, o) {
                let j = choose|j: int| 0 <= j < listing.len() && listing[j] == o.key;
                if j < front.len() {
                    assert(front[j] == o.key);
                    assert(before.contains(o));
                    let k = choose|k: int| 0 <= k < before.len() && before[k] == o;
                    assert(all[k] == o);
                } else {
                    assert(all[all.len() - 1] == o);
                }
            }
        }
    }
}

/// A listing resolves to no version exactly when none of its keys names a
/// firmware image.
pub proof fn lemma_latest_tag_none(listing: Seq<Seq<char>>)
    ensures
        latest_tag(listing) is None <==> forall|i: int|
            0 <= i < listing.len() ==> version_of(#[trigger] listing[i]) is None,
{
    let objects = matching_objects(listing);
    lemma_latest_characterized(objects);
    lemma_matching_objects_members(listing);
    if objects.len() > 0 {
        assert(objects.contains(objects[0]));
        assert(listed_with_tag(listing, objects[0]));
    } else {
        assert forall|i: int| 0 <= i < listing.len() implies version_of(
            #[trigger] listing[i],
        ) is None by {
            if version_of(listing[i]) is Some {
                let o = FirmwareObjectView {
                    key: listing[i],
                    version_tag: version_of(listing[i])->0,
                };
                assert(listed_with_tag(listing, o));
                assert(objects.contains(o));
            }
        }
    }
}

/// The version that a listing resolves to is the greatest of its tags: it
/// is the tag of one of the listed keys, and the tag of every listed key is
/// no later in string order.
pub proof fn lemma_latest_tag_is_maximum(listing: Seq<Seq<char>>)
    ensures
        latest_tag(listing) matches Some(tag) ==> {
            &&& exists|i: int|
                0 <= i < listing.len() && version_of(#[trigger] listing[i]) == Some(tag)
            &&& forall|i: int|
                0 <= i < listing.len() ==> (version_of(#[trigger] listing[i]) matches Some(other)
                    ==> text_le(other, tag))
        },
{
    let objects = matching_objects(listing);
    lemma_latest_characterized(objects);
    lemma_matching_objects_members(listing);
    if latest(objects) is Some {
        let best = latest(objects)->0;
        assert(listed_with_tag(listing, best));
        let w = choose|i: int| 0 <= i < listing.len() && listing[i] == best.key;
        assert(version_of(listing[w]) == Some(best.version_tag));
        assert forall|i: int| 0 <= i < listing.len() implies (version_of(
            #[trigger] listing[i],
        ) matches Some(other) ==> text_le(other, best.version_tag)) by {
            if version_of(listing[i]) is Some {
                let other = version_of(listing[i])->0;
                let o = FirmwareObjectView { key: listing[i], version_tag: other };
                assert(listed_with_tag(listing, o));
                assert(objects.contains(o));
                let k = choose|k: int| 0 <= k < objects.len() && objects[k] == o;
                assert(object_le(objects[k], best));
                lemma_text_le_reflexive(other);
            }
        }
    }
}

/// The object that a listing resolves to carries the version that the
/// listing resolves to: the key is listed, its tag is the latest tag, and
/// one is found exactly when the other is.
pub proof fn lemma_latest_key_carries_latest_tag(listing: Seq<Seq<char>>)
    ensures
        latest_key(listing) is Some <==> latest_tag(listing) is Some,
        latest_key(listing) matches Some(key) ==> listing.contains(key) && version_of(key)
            == latest_tag(listing),
{
    let objects = matching_objects(listing);
    lemma_latest_characterized(objects);
    lemma_matching_objects_members(listing);
    if latest(objects) is Some {
        assert(listed_with_tag(listing, latest(objects)->0));
    }
}

/// Two listings that hold the same keys, in whatever order and however
/// often, resolve to the same version and the same object.
pub proof fn lemma_latest_ignores_order(a: Seq<Seq<char>>, b: Seq<Seq<char>>)
    requires
        forall|key: Seq<char>| a.contains(key) <==> b.contains(key),
    ensures
        latest_tag(a) == latest_tag(b),
        latest_key(a) == latest_key(b),
{
    let x = matching_objects(a);
    let y = matching_objects(b);
    lemma_latest_characterized(x);
    lemma_latest_characterized(y);
    lemma_matching_objects_members(a);
    lemma_matching_objects_members(b);
    assert forall|o: FirmwareObjectView| x.contains(o) <==> y.contains(o) by {
        assert(listed_with_tag(a, o) <==> listed_with_tag(b, o));
    }
    if x.len() > 0 {
        assert(x.contains(x[0]));
        assert(y.contains(x[0]));
    }
    if y.len() > 0 {
        assert(y.contains(y[0]));
        assert(x.contains(y[0]));
    }
    if latest(x) is Some {
        let p = latest(x)->0;
        let q = latest(y)->0;
        assert(y.contains(p));
        assert forall|i: int| 0 <= i < y.len() implies object_le(#[trigger] y[i], p) by {
            assert(x.contains(y[i]));
            let k = choose|k: int| 0 <= k < x.len() && x[k] == y[i];
            assert(object_le(x[k], p));
        }
        lemma_latest_unique(y, p, q);
    }
}

/// A listing holds no firmware: none of its keys names a firmware image.
#[derive(Clone, Copy, Debug, PartialEq, Eq, Structural)]
pub struct NotFound;

/// The view of what a listing resolved to.
pub open spec fn resolved_view(resolved: Result<String, NotFound>) -> Result<Seq<char>, NotFound> {
    match resolved {
        Ok(text) => Ok(text@),
        Err(e) => Err(e),
    }
}

/// Whether `x` is no later than `y`.
pub fn object_no_later(x: &FirmwareObject, y: &FirmwareObject) -> (r: bool)
    ensures
        r == object_le(x@, y@),
{
    proof {
        lemma_text_le_reflexive(x.version_tag@);
    }
    if !str_le(x.version_tag.as_str(), y.version_tag.as_str()) {
        false
    } else if !str_le(y.version_tag.as_str(), x.version_tag.as_str()) {
        true
    } else {
        proof {
            lemma_text_le_antisymmetric(x.version_tag@, y.version_tag@);
        }
        str_le(x.key.as_str(), y.key.as_str())
    }
}

/// Picks the latest of `objects`: the one with the greatest version tag in
/// string order and, among objects with that tag, the greatest key.
pub fn latest_object(objects: &Vec<FirmwareObject>) -> (r: Option<&FirmwareObject>)
    ensures
        r is None <==> objects.len() == 0,
        r matches Some(o) ==> latest(object_views(objects@)) == Some(o@),
        r is None ==> latest(object_views(objects@)) is None,
{
    let ghost views = object_views(objects@);
    proof {
        lemma_latest_characterized(views);
    }
    if objects.len() == 0 {
        return None;
    }
    let mut best: usize = 0;
    let mut i: usize = 1;
    proof {
        lemma_text_le_reflexive(views[0].key);
    }
    while i < objects.len()
        invariant
            1 <= i <= objects.len(),
            best < i,
            views == object_views(objects@),
            forall|j: int| 0 <= j < i ==> object_le(#[trigger] views[j], views[best as int]),
        decreases objects.len() - i,
    {
        if !object_no_later(&objects[i], &objects[best]) {
            proof {
                lemma_object_le_total(views[i as int], views[best as int]);
                lemma_text_le_reflexive(views[i as int].key);
                assert forall|j: int| 0 <= j < i + 1 implies object_le(
                    #[trigger] views[j],
                    views[i as int],
                ) by {
                    if j < i {
                        lemma_object_le_transitive(views[j], views[best as int], views[i as int]);
                    }
                }
            }
            best = i;
        }
        i += 1;
    }
    proof {
        assert(is_latest(views, views[best as int]));
        lemma_latest_unique(views, views[best as int], latest(views)->0);
    }
    Some(&objects[best])
}

/// Collects the firmware objects of a listing, in listing order.
pub fn firmware_objects(listing: &Vec<String>) -> (r: Vec<FirmwareObject>)
    ensures
        object_views(r@) == matching_objects(texts(listing@)),
{
    let ghost keys = texts(listing@);
    let mut objects: Vec<FirmwareObject> = Vec::new();
    let mut i: usize = 0;
    while i < listing.len()
        invariant
            i <= listing.len(),
            keys == texts(listing@),
            object_views(objects@) == matching_objects(keys.take(i as int)),
        decreases listing.len() - i,
    {
        proof {
            assert(keys.take(i + 1).drop_last() == keys.take(i as int));
            assert(keys.take(i + 1).last() == listing@[i as int]@);
        }
        match extract_version(listing[i].as_str()) {
            None => {},
            Some(tag) => {
                let ghost before = object_views(objects@);
                objects.push(FirmwareObject { key: listing[i].clone(), version_tag: tag });
                assert(object_views(objects@) == before.push(
                    FirmwareObjectView { key: listing@[i as int]@, version_tag: tag@ },
                ));
            },
        }
        i += 1;
    }
    assert(keys.take(listing.len() as int) == keys);
    objects
}

/// What a listing resolves to when asked for the latest version.
pub open spec fn resolved_tag(listing: Seq<Seq<char>>) -> Result<Seq<char>, NotFound> {
    match latest_tag(listing) {
        Some(tag) => Ok(tag),
        None => Err(NotFound),
    }
}

/// What a listing resolves to when asked for the latest object.
pub open spec fn resolved_key(listing: Seq<Seq<char>>) -> Result<Seq<char>, NotFound> {
    match latest_key(listing) {
        Some(key) => Ok(key),
        None => Err(NotFound),
    }
}

/// Resolves a bucket listing to the version tag of its latest firmware.
///
/// Keys that do not name a firmware image are passed over; a listing
/// without any firmware key gives `NotFound`. The result is the greatest tag
/// in string order, so it depends on the keys alone and not on their order.
pub fn resolve_latest(listing: &Vec<String>) -> (r: Result<String, NotFound>)
    ensures
        resolved_view(r) == resolved_tag(texts(listing@)),
{
    let objects = firmware_objects(listing);
    match latest_object(&objects) {
        Some(o) => Ok(o.version_tag.clone()),
        None => Err(NotFound),
    }
}

/// Resolves a bucket listing to the key of its latest firmware: the object
/// whose version tag `resolve_latest` reports for the same listing.
pub fn resolve_latest_object(listing: &Vec<String>) -> (r: Result<String, NotFound>)
    ensures
        resolved_view(r) == resolved_key(texts(listing@)),
{
    let objects = firmware_objects(listing);
    match latest_object(&objects) {
        Some(o) => Ok(o.key.clone()),
        None => Err(NotFound),
    }
}

} // verus!
