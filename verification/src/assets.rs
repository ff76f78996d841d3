//! Asset-path logic: computing the metadata path that sits beside an asset.
//!
//! A metadata file lives at the asset's own path with `.meta` appended to its
//! extension — replacing the extension `ext` by `ext.meta` appends `.meta` to
//! the whole path. Paths travel as bytes, as the platform's packaged-asset
//! store takes them; the surrounding I/O is the embedding's.

use vstd::prelude::*;

verus! {

/// The bytes of the `.meta` suffix a metadata path appends.
pub open spec fn meta_suffix() -> Seq<u8> {
    seq![46u8, 109u8, 101u8, 116u8, 97u8]
}

/// Whether position `i` is an extension dot of the path's final component: a
/// dot that is neither the component's first character nor inside a directory
/// prefix.
pub open spec fn extension_dot_at(p: Seq<u8>, i: int) -> bool {
    &&& 1 <= i < p.len()
    &&& p[i] == 46u8
    &&& p[i - 1] != 47u8
    &&& forall|j: int| i < j < p.len() ==> p[j] != 47u8
}

/// Whether the path's final component has an extension. Asset paths must have
/// extensions; a path without one has no metadata path.
pub open spec fn has_extension(p: Seq<u8>) -> bool {
    exists|i: int| extension_dot_at(p, i)
}

/// The metadata path of an asset: the asset's path with `.meta` appended to
/// its extension, which is the path itself with `.meta` appended.
pub fn get_meta_path(path: &Vec<u8>) -> (meta: Vec<u8>)
    requires
        has_extension(path@),
    ensures
        meta@ == path@ + meta_suffix(),
{
    let mut meta: Vec<u8> = Vec::new();
    let mut i: usize = 0;
    while i < path.len()
        invariant
            i <= path.len(),
            meta@ == path@.subrange(0, i as int),
        decreases path.len() - i,
    {
        let b = path[i];
        meta.push(b);
        i = i + 1;
        proof {
            assert(meta@ =~= path@.subrange(0, i as int));
        }
    }
    proof {
        assert(meta@ =~= path@);
    }
    meta.push(46u8);
    meta.push(109u8);
    meta.push(101u8);
    meta.push(116u8);
    meta.push(97u8);
    proof {
        assert(meta@ =~= path@ + meta_suffix());
    }
    meta
}

} // verus!
