//! Lookups in a TOML document by a path of table keys.

use vstd::prelude::*;
use crate::text::{join, views_of};
use crate::utils::UtilsError;

verus! {

/// `toml::Value`: a TOML value, carried as it is and read only through the
/// calls below.
#[verifier::external_type_specification]
#[verifier::external_body]
pub struct ExTomlValue(toml::Value);

/// What a TOML value holds, by paths of table keys: each path that leads from
/// the value through tables to a value is sent to that value's text where it
/// is a string, and to nothing where it is of another kind. The empty path
/// stands for the value itself.
pub uninterp spec fn toml_paths(v: toml::Value) -> Map<Seq<Seq<char>>, Option<Seq<char>>>;

/// What `toml::from_str` makes of a text: the paths of the document, or
/// nothing where the text is no TOML document.
pub uninterp spec fn toml_document(text: Seq<char>) -> Option<
    Map<Seq<Seq<char>>, Option<Seq<char>>>,
>;

/// The paths of `m` that begin with `key`, without that first key.
pub open spec fn paths_below(
    m: Map<Seq<Seq<char>>, Option<Seq<char>>>,
    prefix: Seq<Seq<char>>,
) -> Map<Seq<Seq<char>>, Option<Seq<char>>> {
    Map::new(|p: Seq<Seq<char>>| m.contains_key(prefix + p), |p: Seq<Seq<char>>| m[prefix + p])
}

/// The string that stands at `path`, if a string stands there.
pub open spec fn string_at(
    m: Map<Seq<Seq<char>>, Option<Seq<char>>>,
    path: Seq<Seq<char>>,
) -> Option<Seq<char>> {
    if m.contains_key(path) {
        m[path]
    } else {
        None
    }
}

/// Calls `toml::from_str` for a `toml::Value`. The contract only names the
/// outcome: the parsed value holds what the text's document holds, and the
/// call fails exactly where the text is no document. Of the parser's message,
/// which a failure carries, nothing is claimed.
#[verifier::external_body]
pub(crate) fn parse_toml(text: &str) -> (r: Result<toml::Value, String>)
    ensures
        match r {
            Ok(v) => toml_document(text@) == Some(toml_paths(v)),
            Err(_) => toml_document(text@).is_none(),
        },
{
    match toml::from_str::<toml::Value>(text) {
        Ok(v) => Ok(v),
        Err(e) => Err(e.to_string()),
    }
}

/// Calls `toml::Value::get` with a string key. A table with that key gives
/// the value under it, whose paths are the table's paths behind the key; any
/// other value gives nothing, and then no path of it begins with the key.
#[verifier::external_body]
fn toml_get<'a>(v: &'a toml::Value, key: &str) -> (r: Option<&'a toml::Value>)
    ensures
        match r {
            Some(c) => toml_paths(*v).contains_key(seq![key@]) && toml_paths(*c) == paths_below(
                toml_paths(*v),
                seq![key@],
            ),
            None => forall|p: Seq<Seq<char>>| !(#[trigger] toml_paths(*v).contains_key(seq![key@] + p)),
        },
{
    v.get(key)
}

/// Calls `toml::Value::as_str`: the text of a string value, nothing for a
/// value of another kind.
#[verifier::external_body]
fn toml_as_str<'a>(v: &'a toml::Value) -> (r: Option<&'a str>)
    ensures
        match r {
            Some(s) => string_at(toml_paths(*v), Seq::empty()) == Some(s@),
            None => string_at(toml_paths(*v), Seq::empty()).is_none(),
        },
{
    v.as_str()
}

/// The dotted form of a key path, as error messages show it.
pub open spec fn dotted(path: Seq<Seq<char>>) -> Seq<char> {
    crate::text::join_with(path, "."@)
}

/// Walks from `root` along the keys of `arr`. Succeeds exactly where the
/// path leads to a value; the error names the dotted path.
pub fn get_toml_value<'v>(root: &'v toml::Value, arr: &[&str]) -> (r: Result<
    &'v toml::Value,
    UtilsError,
>)
    ensures
        match r {
            Ok(v) => {
                &&& arr@.len() == 0 || toml_paths(*root).contains_key(views_of(arr@))
                &&& toml_paths(*v) == paths_below(toml_paths(*root), views_of(arr@))
            },
            Err(UtilsError::TomlValueNotFound(name)) => {
                &&& arr@.len() > 0
                &&& !toml_paths(*root).contains_key(views_of(arr@))
                &&& name@ == dotted(views_of(arr@))
            },
            Err(_) => false,
        },
{
    let ghost path = views_of(arr@);
    let ghost top = toml_paths(*root);
    let mut value: &toml::Value = root;
    let mut i: usize = 0;
    proof {
        assert(paths_below(top, path.take(0)) =~= top) by {
            assert forall|p: Seq<Seq<char>>| path.take(0) + p == p by {
                assert(path.take(0) + p =~= p);
            }
        }
    }
    while i < arr.len()
        invariant
            i <= arr@.len(),
            path == views_of(arr@),
            top == toml_paths(*root),
            toml_paths(*value) == paths_below(top, path.take(i as int)),
            i > 0 ==> top.contains_key(path.take(i as int)),
        decreases arr@.len() - i,
    {
        let ghost before = path.take(i as int);
        let ghost here = toml_paths(*value);
        match toml_get(value, arr[i]) {
            Some(child) => {
                proof {
                    let key = seq![arr@[i as int]@];
                    let next = path.take(i + 1);
                    assert(next =~= before + key);
                    assert(here.contains_key(key));
                    assert(top.contains_key(before + key));
                    assert(toml_paths(*child) =~= paths_below(top, next)) by {
                        assert forall|p: Seq<Seq<char>>| before + (key + p) == next + p by {
                            assert(before + (key + p) =~= next + p);
                        }
                        assert forall|p: Seq<Seq<char>>|
                            toml_paths(*child).contains_key(p) == paths_below(
                                top,
                                next,
                            ).contains_key(p) by {
                            assert(toml_paths(*child).contains_key(p) == here.contains_key(
                                key + p,
                            ));
                            assert(here.contains_key(key + p) == top.contains_key(
                                before + (key + p),
                            ));
                        }
                        assert forall|p: Seq<Seq<char>>| toml_paths(*child).contains_key(p) implies
                            toml_paths(*child)[p] == paths_below(top, next)[p] by {
                            assert(toml_paths(*child)[p] == here[key + p]);
                            assert(here[key + p] == top[before + (key + p)]);
                        }
                    }
                }
                value = child;
            },
            None => {
                proof {
                    let key = seq![arr@[i as int]@];
                    let rest = path.skip(i + 1);
                    assert(path =~= before + (key + rest));
                    assert(!here.contains_key(key + rest));
                    assert(here.contains_key(key + rest) == top.contains_key(
                        before + (key + rest),
                    ));
                }
                return Err(UtilsError::TomlValueNotFound(join(arr, ".")));
            },
        }
        i += 1;
    }
    proof {
        assert(path.take(i as int) =~= path);
    }
    Ok(value)
}

/// The string under the keys of `arr`. Succeeds exactly where a string stands
/// at that path; the error names the dotted path.
pub fn get_toml_value_as_string(root: &toml::Value, arr: &[&str]) -> (r: Result<
    String,
    UtilsError,
>)
    ensures
        match r {
            Ok(s) => string_at(toml_paths(*root), views_of(arr@)) == Some(s@),
            Err(UtilsError::TomlValueNotFound(name)) => {
                &&& string_at(toml_paths(*root), views_of(arr@)).is_none()
                &&& name@ == dotted(views_of(arr@))
            },
            Err(_) => false,
        },
{
    let ghost path = views_of(arr@);
    match get_toml_value(root, arr) {
        Ok(value) => {
            proof {
                let top = toml_paths(*root);
                let e = Seq::<Seq<char>>::empty();
                assert(path + e =~= path);
                assert(paths_below(top, path).contains_key(e) == top.contains_key(path + e));
                assert(top.contains_key(path) ==> paths_below(top, path)[e] == top[path + e]);
            }
            match toml_as_str(value) {
                Some(s) => Ok(String::from_str(s)),
                None => Err(UtilsError::TomlValueNotFound(join(arr, "."))),
            }
        },
        Err(e) => Err(e),
    }
}

} // verus!
