//! Path predicates for the directory walk, and the module name a file gets
//! from its place in the tree.
use vstd::prelude::*;

use crate::strutil::join_parts;
use crate::strutil::spec_join_parts;
use crate::strutil::str_eq;
use crate::strutil::strip_suffix_str;
use crate::strutil::ends_with_str;

verus! {

/// A hidden entry: its name begins with a dot.
pub open spec fn spec_is_hidden(name: Seq<char>) -> bool {
    name.len() > 0 && name[0] == '.'
}

/// Whether a directory entry is hidden.
pub fn is_hidden(name: &str) -> (r: bool)
    ensures
        r == spec_is_hidden(name@),
{
    if name.unicode_len() == 0 {
        false
    } else {
        name.get_char(0) == '.'
    }
}

/// A walkable entry: every directory, and every non-hidden file carrying the
/// backend's extension.
pub open spec fn spec_is_valid(name: Seq<char>, is_dir: bool, ext: Seq<char>) -> bool {
    is_dir || (!spec_is_hidden(name) && ext.is_suffix_of(name))
}

/// Whether the walker should keep a directory entry, by its name alone.
pub fn is_valid(name: &str, is_dir: bool, ext: &str) -> (r: bool)
    ensures
        r == spec_is_valid(name@, is_dir, ext@),
{
    is_dir || (!is_hidden(name) && ends_with_str(name, ext))
}

/// A path component without its `.rs` extension, when it carries one.
pub open spec fn spec_rust_stem(comp: Seq<char>) -> Seq<char> {
    if ".rs"@.is_suffix_of(comp) {
        comp.subrange(0, comp.len() - ".rs"@.len())
    } else {
        comp
    }
}

/// The module segments a Rust file gets from its path relative to the crate
/// root: the first component — the source directory — is dropped, the file's
/// extension is stripped, and a `mod` file names the module of its own
/// directory.
pub open spec fn spec_module_parts(path: Seq<Seq<char>>) -> Seq<Seq<char>> {
    if path.len() <= 1 {
        Seq::empty()
    } else {
        let mids = path.subrange(1, path.len() - 1);
        let stem = spec_rust_stem(path.last());
        if stem == "mod"@ {
            mids
        } else {
            mids.push(stem)
        }
    }
}

/// The fully qualified module of a Rust file: its module segments joined
/// with `::`.
pub open spec fn spec_module_name(path: Seq<Seq<char>>) -> Seq<char> {
    spec_join_parts(spec_module_parts(path), "::"@)
}

/// The fully qualified module of a Rust file, from its path components
/// relative to the crate root.
pub fn fully_qualified_module_name(path: &Vec<String>) -> (r: String)
    ensures
        r@ == spec_module_name(path.deep_view()),
{
    if path.len() <= 1 {
        let r = String::new();
        proof {
            assert(spec_module_parts(path.deep_view()) =~= Seq::<Seq<char>>::empty());
        }
        return r;
    }
    let mut parts: Vec<String> = Vec::new();
    let mut i: usize = 1;
    proof {
        assert(parts.deep_view() =~= path.deep_view().subrange(1, 1));
    }
    while i < path.len() - 1
        invariant
            1 <= i <= path.deep_view().len() - 1,
            path.deep_view().len() >= 2,
            parts.deep_view() == path.deep_view().subrange(1, i as int),
        decreases path.len() - i,
    {
        let ghost old_parts = parts.deep_view();
        parts.push(path[i].clone());
        proof {
            assert(parts.deep_view() =~= old_parts.push(path.deep_view()[i as int]));
            assert(path.deep_view().subrange(1, i as int + 1) =~= path.deep_view().subrange(
                1,
                i as int,
            ).push(path.deep_view()[i as int]));
        }
        i += 1;
    }
    proof {
        assert(parts.deep_view() =~= path.deep_view().subrange(
            1,
            path.deep_view().len() - 1,
        ));
    }
    let last = &path[path.len() - 1];
    let stem: String = match strip_suffix_str(last.as_str(), ".rs") {
        Some(s) => s,
        None => last.clone(),
    };
    proof {
        assert(stem@ == spec_rust_stem(path.deep_view().last()));
        assert(path.deep_view()[path.deep_view().len() - 1] == path.deep_view().last());
    }
    if str_eq(stem.as_str(), "mod") {
        proof {
            assert(spec_module_parts(path.deep_view()) == parts.deep_view());
        }
        join_parts(&parts, "::")
    } else {
        let ghost old_parts = parts.deep_view();
        parts.push(stem);
        proof {
            assert(parts.deep_view() =~= old_parts.push(spec_rust_stem(
                path.deep_view().last(),
            )));
            assert(spec_module_parts(path.deep_view()) == parts.deep_view());
        }
        join_parts(&parts, "::")
    }
}

/// The dotted module of a Python file: every path component, the file's
/// extension stripped, with a package's `__init__` file naming the package
/// itself.
pub open spec fn spec_python_stem(comp: Seq<char>) -> Seq<char> {
    if ".py"@.is_suffix_of(comp) {
        comp.subrange(0, comp.len() - ".py"@.len())
    } else {
        comp
    }
}

/// The module segments a Python file gets from its path.
pub open spec fn spec_python_module_parts(path: Seq<Seq<char>>) -> Seq<Seq<char>> {
    if path.len() == 0 {
        Seq::empty()
    } else {
        let mids = path.subrange(0, path.len() - 1);
        let stem = spec_python_stem(path.last());
        if stem == "__init__"@ {
            mids
        } else {
            mids.push(stem)
        }
    }
}

/// The dotted module of a Python file, from its path components relative to
/// the project root.
pub fn python_module_name(path: &Vec<String>) -> (r: String)
    ensures
        r@ == spec_join_parts(spec_python_module_parts(path.deep_view()), "."@),
{
    if path.len() == 0 {
        let r = String::new();
        proof {
            assert(spec_python_module_parts(path.deep_view()) =~= Seq::<Seq<char>>::empty());
        }
        return r;
    }
    let mut parts: Vec<String> = Vec::new();
    let mut i: usize = 0;
    proof {
        assert(parts.deep_view() =~= path.deep_view().subrange(0, 0));
    }
    while i < path.len() - 1
        invariant
            0 <= i <= path.deep_view().len() - 1,
            path.deep_view().len() >= 1,
            parts.deep_view() == path.deep_view().subrange(0, i as int),
        decreases path.len() - i,
    {
        let ghost old_parts = parts.deep_view();
        parts.push(path[i].clone());
        proof {
            assert(parts.deep_view() =~= old_parts.push(path.deep_view()[i as int]));
            assert(path.deep_view().subrange(0, i as int + 1) =~= path.deep_view().subrange(
                0,
                i as int,
            ).push(path.deep_view()[i as int]));
        }
        i += 1;
    }
    proof {
        assert(parts.deep_view() =~= path.deep_view().subrange(
            0,
            path.deep_view().len() - 1,
        ));
    }
    let last = &path[path.len() - 1];
    let stem: String = match strip_suffix_str(last.as_str(), ".py") {
        Some(s) => s,
        None => last.clone(),
    };
    proof {
        assert(stem@ == spec_python_stem(path.deep_view().last()));
        assert(path.deep_view()[path.deep_view().len() - 1] == path.deep_view().last());
    }
    if str_eq(stem.as_str(), "__init__") {
        proof {
            assert(spec_python_module_parts(path.deep_view()) == parts.deep_view());
        }
        join_parts(&parts, ".")
    } else {
        let ghost old_parts = parts.deep_view();
        parts.push(stem);
        proof {
            assert(parts.deep_view() =~= old_parts.push(spec_python_stem(
                path.deep_view().last(),
            )));
            assert(spec_python_module_parts(path.deep_view()) == parts.deep_view());
        }
        join_parts(&parts, ".")
    }
}

/// The directory of a file, as its path components joined with `/` without
/// the last one: what the TypeScript import resolver takes as the importing
/// file's own directory.
pub fn directory_of(path: &Vec<String>) -> (r: String)
    ensures
        path.deep_view().len() >= 1 ==> r@ == spec_join_parts(
            path.deep_view().subrange(0, path.deep_view().len() - 1),
            "/"@,
        ),
        path.deep_view().len() == 0 ==> r@ == Seq::<char>::empty(),
{
    let mut parts: Vec<String> = Vec::new();
    if path.len() == 0 {
        proof {
            assert(parts.deep_view() =~= Seq::<Seq<char>>::empty());
        }
        return join_parts(&parts, "/");
    }
    let mut i: usize = 0;
    proof {
        assert(parts.deep_view() =~= path.deep_view().subrange(0, 0));
    }
    while i < path.len() - 1
        invariant
            0 <= i <= path.deep_view().len() - 1,
            path.deep_view().len() >= 1,
            parts.deep_view() == path.deep_view().subrange(0, i as int),
        decreases path.len() - i,
    {
        let ghost old_parts = parts.deep_view();
        parts.push(path[i].clone());
        proof {
            assert(parts.deep_view() =~= old_parts.push(path.deep_view()[i as int]));
            assert(path.deep_view().subrange(0, i as int + 1) =~= path.deep_view().subrange(
                0,
                i as int,
            ).push(path.deep_view()[i as int]));
        }
        i += 1;
    }
    proof {
        assert(parts.deep_view() =~= path.deep_view().subrange(
            0,
            path.deep_view().len() - 1,
        ));
    }
    join_parts(&parts, "/")
}

} // verus!
