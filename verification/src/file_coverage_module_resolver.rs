//! Resolution of script imports to instrumented, cached modules.
//!
//! An import path is resolved against a configured base directory — kept as
//! it is when absolute — and coerced to the scripting language's canonical
//! `rhai` extension. Before any file is read, the cache is consulted under
//! the fully resolved path: a hit returns the module compiled earlier, which
//! is what keeps coverage sites from being registered twice and makes
//! repeated imports cheap. The compiled modules themselves live with the
//! host, which keys them by the identifiers stored here; on a miss the host
//! reads the file, instruments it line by line, compiles and evaluates it,
//! and stores the new identifier under the resolved path.

use vstd::prelude::*;

use crate::instrumentation::{chars_of, find_last_char};

verus! {

/// Whether a path is relative: it does not start from the root.
pub open spec fn is_relative(p: Seq<char>) -> bool {
    p.len() == 0 || p[0] != '/'
}

/// A relative path joined onto the base directory; an absolute path stands
/// alone.
pub open spec fn joined_path(base: Seq<char>, p: Seq<char>) -> Seq<char> {
    if !is_relative(p) {
        p
    } else if base.len() == 0 {
        p
    } else if base.last() == '/' {
        base + p
    } else {
        base + "/"@ + p
    }
}

/// The index of the last occurrence of a character, or minus one.
pub open spec fn last_index_of(s: Seq<char>, c: char) -> int
    decreases s.len(),
{
    if s.len() == 0 {
        -1
    } else if s.last() == c {
        s.len() - 1
    } else {
        last_index_of(s.drop_last(), c)
    }
}

/// The path with its extension forced to `rhai`: an existing extension — a
/// dot in the file name, not at its first character — is replaced, else
/// `.rhai` is appended.
pub open spec fn with_rhai_extension(p: Seq<char>) -> Seq<char> {
    let sl = last_index_of(p, '/');
    let dot = last_index_of(p, '.');
    if dot > sl + 1 {
        p.subrange(0, dot) + ".rhai"@
    } else {
        p + ".rhai"@
    }
}

/// What an import path resolves to. The requesting module plays no part:
/// the same import resolves to the same path wherever it is written.
pub open spec fn resolved_path(base: Seq<char>, p: Seq<char>) -> Seq<char> {
    with_rhai_extension(joined_path(base, p))
}

pub proof fn lemma_last_index_of(s: Seq<char>, c: char)
    ensures
        ({
            let li = last_index_of(s, c);
            &&& -1 <= li < s.len()
            &&& li >= 0 ==> s[li] == c
            &&& forall|q: int| li < q < s.len() ==> s[q] != c
        }),
    decreases s.len(),
{
    if s.len() > 0 && s.last() != c {
        lemma_last_index_of(s.drop_last(), c);
        let li = last_index_of(s, c);
        assert forall|q: int| li < q < s.len() implies s[q] != c by {
            if q < s.len() - 1 {
                assert(s.drop_last()[q] == s[q]);
            }
        }
    }
}

/// One cache entry: a resolved path and the host's identifier for the
/// module compiled from it.
#[derive(Debug)]
pub struct ModuleCacheEntry {
    pub path: String,
    pub module_id: u64,
}

/// Mathematical image of a cache entry.
pub ghost struct CacheEntryV {
    pub path: Seq<char>,
    pub module_id: u64,
}

impl View for ModuleCacheEntry {
    type V = CacheEntryV;

    open spec fn view(&self) -> CacheEntryV {
        CacheEntryV { path: self.path@, module_id: self.module_id }
    }
}

/// The module cached under a path: the first entry with that path decides.
pub open spec fn spec_lookup(entries: Seq<CacheEntryV>, path: Seq<char>) -> Option<u64>
    decreases entries.len(),
{
    if entries.len() == 0 {
        None
    } else if entries[0].path == path {
        Some(entries[0].module_id)
    } else {
        spec_lookup(entries.skip(1), path)
    }
}

/// Caching one more module.
pub open spec fn spec_insert(entries: Seq<CacheEntryV>, path: Seq<char>, module_id: u64) -> Seq<
    CacheEntryV,
> {
    entries.push(CacheEntryV { path, module_id })
}

proof fn lemma_lookup_after_push(entries: Seq<CacheEntryV>, e: CacheEntryV, q: Seq<char>)
    ensures
        spec_lookup(entries.push(e), q) == (match spec_lookup(entries, q) {
            Some(id) => Some(id),
            None => if e.path == q {
                Some(e.module_id)
            } else {
                None
            },
        }),
    decreases entries.len(),
{
    if entries.len() == 0 {
        assert(entries.push(e)[0] == e);
        assert(entries.push(e).skip(1) =~= Seq::<CacheEntryV>::empty());
        assert(spec_lookup(Seq::<CacheEntryV>::empty(), q) is None);
        if e.path == q {
            assert(spec_lookup(entries.push(e), q) == Some(e.module_id));
        } else {
            assert(spec_lookup(entries.push(e), q) == spec_lookup(entries.push(e).skip(1), q));
        }
    } else {
        assert(entries.push(e)[0] == entries[0]);
        assert(entries.push(e).skip(1) =~= entries.skip(1).push(e));
        lemma_lookup_after_push(entries.skip(1), e, q);
        if entries[0].path == q {
            assert(spec_lookup(entries.push(e), q) == Some(entries[0].module_id));
            assert(spec_lookup(entries, q) == Some(entries[0].module_id));
        } else {
            assert(spec_lookup(entries.push(e), q) == spec_lookup(entries.skip(1).push(e), q));
            assert(spec_lookup(entries, q) == spec_lookup(entries.skip(1), q));
        }
    }
}

/// Resolving an import a second time returns the very module cached the
/// first time — the same identifier, not a recompilation — and caching one
/// path changes no other path's resolution. Together with `resolved_path`
/// ignoring the requesting module, a module imported along different chains
/// resolves to one cached instance.
pub proof fn lemma_second_resolution_cached(
    entries: Seq<CacheEntryV>,
    path: Seq<char>,
    module_id: u64,
)
    requires
        spec_lookup(entries, path) is None,
    ensures
        spec_lookup(spec_insert(entries, path, module_id), path) == Some(module_id),
        forall|other: Seq<char>|
            other != path ==> spec_lookup(spec_insert(entries, path, module_id), other)
                == spec_lookup(entries, other),
{
    lemma_lookup_after_push(entries, CacheEntryV { path, module_id }, path);
    assert forall|other: Seq<char>| other != path implies spec_lookup(
        spec_insert(entries, path, module_id),
        other,
    ) == spec_lookup(entries, other) by {
        lemma_lookup_after_push(entries, CacheEntryV { path, module_id }, other);
    }
}

/// Mathematical image of the resolver.
pub ghost struct ResolverV {
    pub base_path: Seq<char>,
    pub cache: Seq<CacheEntryV>,
}

/// The resolver: the base directory for relative imports, and the cache of
/// already compiled modules keyed by resolved path.
#[derive(Debug)]
pub struct FileCoverageModuleResolver {
    base_path: String,
    cache: Vec<ModuleCacheEntry>,
}

impl View for FileCoverageModuleResolver {
    type V = ResolverV;

    closed spec fn view(&self) -> ResolverV {
        ResolverV {
            base_path: self.base_path@,
            cache: self.cache@.map_values(|e: ModuleCacheEntry| e@),
        }
    }
}

impl FileCoverageModuleResolver {
    /// A resolver over a base directory, with an empty cache.
    pub fn new(base_path: &str) -> (r: Self)
        ensures
            r@ == (ResolverV { base_path: base_path@, cache: Seq::<CacheEntryV>::empty() }),
    {
        let r = Self { base_path: String::from_str(base_path), cache: Vec::new() };
        proof {
            assert(r@.cache =~= Seq::<CacheEntryV>::empty());
        }
        r
    }

    /// Resolves an import path: joined onto the base directory when
    /// relative, and coerced to the `rhai` extension.
    pub fn get_file_path(&self, path: &str) -> (r: String)
        ensures
            r@ == resolved_path(self@.base_path, path@),
    {
        let plen = path.unicode_len();
        let relative = plen == 0 || path.get_char(0) != '/';
        let joined: String = if !relative {
            String::from_str(path)
        } else {
            let blen = self.base_path.as_str().unicode_len();
            if blen == 0 {
                String::from_str(path)
            } else if self.base_path.as_str().get_char(blen - 1) == '/' {
                String::from_str(self.base_path.as_str()).concat(path)
            } else {
                String::from_str(self.base_path.as_str()).concat("/").concat(path)
            }
        };
        proof {
            assert(joined@ == joined_path(self@.base_path, path@));
        }
        let cs = chars_of(joined.as_str());
        let n = cs.len();
        let sl = find_last_char(&cs, '/');
        let dot = find_last_char(&cs, '.');
        proof {
            lemma_last_index_of(joined@, '/');
            lemma_last_index_of(joined@, '.');
            match sl {
                Some(p) => {
                    assert(last_index_of(joined@, '/') == p as int);
                },
                None => {
                    assert(last_index_of(joined@, '/') == -1);
                },
            }
            match dot {
                Some(d) => {
                    assert(last_index_of(joined@, '.') == d as int);
                },
                None => {
                    assert(last_index_of(joined@, '.') == -1);
                },
            }
        }
        if let Some(d) = dot {
            let cut = match sl {
                None => d > 0,
                Some(slv) => d > slv + 1,
            };
            if cut {
                return String::from_str(joined.as_str().substring_char(0, d)).concat(".rhai");
            }
        }
        joined.concat(".rhai")
    }

    /// The module cached under a resolved path, if any.
    pub fn lookup_module(&self, resolved: &str) -> (r: Option<u64>)
        ensures
            r == spec_lookup(self@.cache, resolved@),
    {
        let needle = String::from_str(resolved);
        let ghost entries = self@.cache;
        proof {
            assert(entries.len() == self.cache@.len());
            assert(entries.skip(0) =~= entries);
        }
        let mut idx: usize = 0;
        while idx < self.cache.len()
            invariant
                idx <= self.cache.len(),
                needle@ == resolved@,
                entries == self@.cache,
                entries.len() == self.cache@.len(),
                spec_lookup(entries, resolved@) == spec_lookup(entries.skip(idx as int), resolved@),
            decreases self.cache.len() - idx,
        {
            proof {
                assert(entries.skip(idx as int)[0] == entries[idx as int]);
                assert(entries.skip(idx as int).skip(1) =~= entries.skip(idx + 1));
                assert(entries[idx as int] == self.cache@[idx as int]@);
            }
            if self.cache[idx].path == needle {
                return Some(self.cache[idx].module_id);
            }
            idx += 1;
        }
        proof {
            assert(entries.skip(entries.len() as int) =~= Seq::<CacheEntryV>::empty());
        }
        None
    }

    /// Caches a freshly compiled module under its resolved path.
    pub fn cache_module(&mut self, resolved: &str, module_id: u64)
        ensures
            final(self)@ == (ResolverV {
                base_path: old(self)@.base_path,
                cache: spec_insert(old(self)@.cache, resolved@, module_id),
            }),
    {
        let ghost prior = self@.cache;
        self.cache.push(ModuleCacheEntry { path: String::from_str(resolved), module_id });
        proof {
            assert(self@.cache =~= prior.push(CacheEntryV { path: resolved@, module_id }));
        }
    }
}

} // verus!
