//! Selection of candidate input files by name: only files whose extension is
//! `json` or `geojson` are processed. Directory listing itself is I/O and is
//! left to the caller; names are handed in as raw bytes.

use vstd::prelude::*;

verus! {

/// The byte value of `'.'`.
pub open spec fn dot_byte() -> u8 {
    46u8
}

/// `name` has the extension `ext` in the sense of a file path: it ends in
/// `'.'` followed by `ext`, and at least one byte stands before that dot.
pub open spec fn has_extension(name: Seq<u8>, ext: Seq<u8>) -> bool {
    &&& name.len() >= ext.len() + 2
    &&& name[name.len() - ext.len() - 1] == dot_byte()
    &&& name.subrange(name.len() - ext.len(), name.len() as int) == ext
}

/// The extension `json` as bytes.
pub open spec fn json_ext() -> Seq<u8> {
    seq![106u8, 115u8, 111u8, 110u8]
}

/// The extension `geojson` as bytes.
pub open spec fn geojson_ext() -> Seq<u8> {
    seq![103u8, 101u8, 111u8, 106u8, 115u8, 111u8, 110u8]
}

/// A file of this name is selected for processing.
pub open spec fn is_geojson_name(name: Seq<u8>) -> bool {
    has_extension(name, json_ext()) || has_extension(name, geojson_ext())
}

/// Whether `name` ends in `'.'` followed by `ext`, with a nonempty stem.
fn ends_with_dot_ext(name: &Vec<u8>, ext: &Vec<u8>) -> (r: bool)
    ensures
        r == has_extension(name@, ext@),
{
    let nlen: usize = name.len();
    let elen: usize = ext.len();
    if nlen < 2 || nlen - 2 < elen {
        return false;
    }
    let start: usize = nlen - elen;
    if name[start - 1] != 46u8 {
        return false;
    }
    let mut i: usize = 0;
    while i < elen
        invariant
            0 <= i <= elen,
            nlen == name@.len(),
            elen == ext@.len(),
            start == nlen - elen,
            nlen >= elen + 2,
            forall|j: int| 0 <= j < i ==> name@[start + j] == ext@[j],
        decreases elen - i,
    {
        if name[start + i] != ext[i] {
            assert(name@.subrange(start as int, name@.len() as int)[i as int] != ext@[i as int]);
            return false;
        }
        i += 1;
    }
    assert(name@.subrange(start as int, name@.len() as int) =~= ext@);
    true
}

/// Decides whether a file name (as bytes) carries the extension `json` or
/// `geojson`, exactly the names the batch selects for processing.
pub fn is_geojson_file_name(name: &Vec<u8>) -> (r: bool)
    ensures
        r == is_geojson_name(name@),
{
    let json: Vec<u8> = vec![106u8, 115u8, 111u8, 110u8];
    let geo: Vec<u8> = vec![103u8, 101u8, 111u8, 106u8, 115u8, 111u8, 110u8];
    assert(json@ =~= json_ext());
    assert(geo@ =~= geojson_ext());
    let r1 = ends_with_dot_ext(name, &json);
    if r1 {
        return true;
    }
    ends_with_dot_ext(name, &geo)
}

/// The subsequence of `names` that would be selected, in the given order.
pub open spec fn selected_names(names: Seq<Seq<u8>>) -> Seq<Seq<u8>>
    decreases names.len(),
{
    if names.len() == 0 {
        Seq::empty()
    } else {
        let rest = selected_names(names.drop_last());
        if is_geojson_name(names.last()) {
            rest.push(names.last())
        } else {
            rest
        }
    }
}

/// Keeps, in order, exactly the names whose extension is `json` or `geojson`.
pub fn select_geojson_names(names: Vec<Vec<u8>>) -> (r: Vec<Vec<u8>>)
    ensures
        r.deep_view() == selected_names(names.deep_view()),
{
    let ghost all = names.deep_view();
    let mut r: Vec<Vec<u8>> = Vec::new();
    let mut i: usize = 0;
    assert(r.deep_view() =~= selected_names(all.take(0)));
    while i < names.len()
        invariant
            0 <= i <= names@.len(),
            all == names.deep_view(),
            all.len() == names@.len(),
            r.deep_view() == selected_names(all.take(i as int)),
        decreases names@.len() - i,
    {
        let ghost prev = r.deep_view();
        proof {
            assert(all[i as int] == names@[i as int].deep_view());
            assert(names@[i as int].deep_view() =~= names@[i as int]@);
        }
        if is_geojson_file_name(&names[i]) {
            let name = names[i].clone();
            assert(name@ =~= names@[i as int]@);
            r.push(name);
            assert(r.deep_view() =~= prev.push(all[i as int]));
        }
        proof {
            assert(all.take(i + 1).drop_last() =~= all.take(i as int));
            assert(all.take(i + 1).last() == all[i as int]);
        }
        i += 1;
    }
    proof {
        assert(all.take(names@.len() as int) =~= all);
    }
    r
}

} // verus!
