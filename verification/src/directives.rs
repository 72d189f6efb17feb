//! Field- and variant-level directives and their scope resolution.
//!
//! A directive can be declared at three scopes: global (applies to every
//! conversion of the type), direction-generic (applies to one conversion
//! direction, whatever the other type is), and direction-plus-target-path
//! (applies only when converting in that direction with that exact other
//! type).  Resolution merges the applicable scopes attribute by attribute,
//! narrowest scope first; a path-scoped directive whose path does not match
//! the conversion at hand is invisible.  `skip` is special: it holds as soon
//! as any applicable scope requests it.

use vstd::prelude::*;

use crate::conversion_meta::ConversionMethod;

verus! {

/// The attributes one scope may set on a field or variant.  `None` means the
/// scope leaves the attribute open for a broader scope to supply.  `skip` is
/// a plain flag: a scope either requests skipping or says nothing.
#[derive(Clone, Debug, PartialEq, Eq)]
pub struct DirectiveSet {
    pub rename: Option<String>,
    pub skip: bool,
    pub default: Option<bool>,
    pub unwrap: Option<bool>,
    pub with_func: Option<String>,
}

impl DirectiveSet {
    /// A scope that sets nothing.
    pub fn unset() -> (r: DirectiveSet)
        ensures
            r == DirectiveSet::spec_unset(),
    {
        DirectiveSet { rename: None, skip: false, default: None, unwrap: None, with_func: None }
    }

    pub open spec fn spec_unset() -> DirectiveSet {
        DirectiveSet { rename: None, skip: false, default: None, unwrap: None, with_func: None }
    }
}

/// One directive tied to a conversion direction, and optionally to the exact
/// path of the type on the other side.
#[derive(Clone, Debug, PartialEq, Eq)]
pub struct ScopedDirective {
    pub direction: ConversionMethod,
    /// `None` for a direction-generic directive; `Some(path)` for one that
    /// only applies when the other side is exactly `path`.
    pub target: Option<String>,
    pub set: DirectiveSet,
}

/// Every directive attached to one field or variant.
#[derive(Clone, Debug, PartialEq, Eq)]
pub struct FieldDirectives {
    pub global: DirectiveSet,
    pub scoped: Vec<ScopedDirective>,
}

impl FieldDirectives {
    /// A field or variant that carries no directives at all.
    pub fn none() -> (r: FieldDirectives)
        ensures
            r.global == DirectiveSet::spec_unset(),
            r.scoped@ =~= Seq::<ScopedDirective>::empty(),
    {
        FieldDirectives { global: DirectiveSet::unset(), scoped: Vec::new() }
    }
}

/// The outcome of resolution: one value per attribute, for one (field,
/// conversion) pair.
#[derive(Clone, Debug, PartialEq, Eq)]
pub struct EffectiveDirective {
    pub rename: Option<String>,
    pub skip: bool,
    pub default: bool,
    pub unwrap: bool,
    pub with_func: Option<String>,
}

/// Whether a scoped directive addresses exactly this direction and this
/// target path.
pub open spec fn spec_is_specific(
    s: ScopedDirective,
    d: ConversionMethod,
    path: Seq<char>,
) -> bool {
    s.direction == d && match s.target {
        Some(p) => p@ == path,
        None => false,
    }
}

/// Whether a scoped directive addresses this direction without naming a
/// target path.
pub open spec fn spec_is_generic(s: ScopedDirective, d: ConversionMethod) -> bool {
    s.direction == d && s.target is None
}

/// The first direction-plus-path directive that applies, if any.
pub open spec fn spec_first_specific(
    s: Seq<ScopedDirective>,
    d: ConversionMethod,
    path: Seq<char>,
) -> Option<DirectiveSet>
    decreases s.len(),
{
    if s.len() == 0 {
        None
    } else if spec_is_specific(s[0], d, path) {
        Some(s[0].set)
    } else {
        spec_first_specific(s.drop_first(), d, path)
    }
}

/// The first direction-generic directive that applies, if any.
pub open spec fn spec_first_generic(s: Seq<ScopedDirective>, d: ConversionMethod) -> Option<
    DirectiveSet,
>
    decreases s.len(),
{
    if s.len() == 0 {
        None
    } else if spec_is_generic(s[0], d) {
        Some(s[0].set)
    } else {
        spec_first_generic(s.drop_first(), d)
    }
}

/// The narrowest scope that supplies an optional attribute wins.
pub open spec fn spec_pick<A>(narrow: Option<A>, middle: Option<A>, broad: Option<A>) -> Option<A> {
    if narrow is Some {
        narrow
    } else if middle is Some {
        middle
    } else {
        broad
    }
}

/// The narrowest scope that supplies a flag wins; an attribute no scope
/// supplies is off.
pub open spec fn spec_pick_flag(
    narrow: Option<bool>,
    middle: Option<bool>,
    broad: Option<bool>,
) -> bool {
    match spec_pick(narrow, middle, broad) {
        Some(v) => v,
        None => false,
    }
}

pub open spec fn spec_scope_rename(o: Option<DirectiveSet>) -> Option<String> {
    match o {
        Some(s) => s.rename,
        None => None,
    }
}

pub open spec fn spec_scope_default(o: Option<DirectiveSet>) -> Option<bool> {
    match o {
        Some(s) => s.default,
        None => None,
    }
}

pub open spec fn spec_scope_unwrap(o: Option<DirectiveSet>) -> Option<bool> {
    match o {
        Some(s) => s.unwrap,
        None => None,
    }
}

pub open spec fn spec_scope_with_func(o: Option<DirectiveSet>) -> Option<String> {
    match o {
        Some(s) => s.with_func,
        None => None,
    }
}

pub open spec fn spec_scope_skip(o: Option<DirectiveSet>) -> bool {
    match o {
        Some(s) => s.skip,
        None => false,
    }
}

/// The single place where scope priority is decided: each attribute is taken
/// from the narrowest applicable scope that sets it, and `skip` holds as soon
/// as any applicable scope requests it.
pub open spec fn spec_resolve(
    dirs: FieldDirectives,
    d: ConversionMethod,
    path: Seq<char>,
) -> EffectiveDirective {
    let sp = spec_first_specific(dirs.scoped@, d, path);
    let ge = spec_first_generic(dirs.scoped@, d);
    let gl = Some(dirs.global);
    EffectiveDirective {
        rename: spec_pick(spec_scope_rename(sp), spec_scope_rename(ge), spec_scope_rename(gl)),
        skip: spec_scope_skip(sp) || spec_scope_skip(ge) || spec_scope_skip(gl),
        default: spec_pick_flag(
            spec_scope_default(sp),
            spec_scope_default(ge),
            spec_scope_default(gl),
        ),
        unwrap: spec_pick_flag(spec_scope_unwrap(sp), spec_scope_unwrap(ge), spec_scope_unwrap(gl)),
        with_func: spec_pick(
            spec_scope_with_func(sp),
            spec_scope_with_func(ge),
            spec_scope_with_func(gl),
        ),
    }
}

fn clone_opt_string(o: &Option<String>) -> (r: Option<String>)
    ensures
        r == *o,
{
    match o {
        Some(s) => Some(s.clone()),
        None => None,
    }
}

/// Finds the index of the first scoped directive that addresses exactly this
/// direction and target path.
fn find_specific(scoped: &Vec<ScopedDirective>, d: ConversionMethod, path: &String) -> (r: Option<
    usize,
>)
    ensures
        match r {
            Some(j) => j < scoped@.len() && spec_first_specific(scoped@, d, path@) == Some(
                scoped@[j as int].set,
            ),
            None => spec_first_specific(scoped@, d, path@) is None,
        },
{
    let mut i: usize = 0;
    proof {
        assert(scoped@.skip(0) =~= scoped@);
    }
    while i < scoped.len()
        invariant
            i <= scoped@.len(),
            spec_first_specific(scoped@, d, path@) == spec_first_specific(
                scoped@.skip(i as int),
                d,
                path@,
            ),
        decreases scoped@.len() - i,
    {
        let s = &scoped[i];
        let applies = s.direction == d && match &s.target {
            Some(p) => *p == *path,
            None => false,
        };
        proof {
            assert(scoped@.skip(i as int)[0] == scoped@[i as int]);
            assert(applies == spec_is_specific(scoped@[i as int], d, path@));
        }
        if applies {
            return Some(i);
        }
        proof {
            assert(scoped@.skip(i as int).drop_first() =~= scoped@.skip(i as int + 1));
        }
        i = i + 1;
    }
    proof {
        assert(scoped@.skip(i as int) =~= Seq::<ScopedDirective>::empty());
    }
    None
}

/// Finds the index of the first scoped directive that addresses this
/// direction without naming a target path.
fn find_generic(scoped: &Vec<ScopedDirective>, d: ConversionMethod) -> (r: Option<usize>)
    ensures
        match r {
            Some(j) => j < scoped@.len() && spec_first_generic(scoped@, d) == Some(
                scoped@[j as int].set,
            ),
            None => spec_first_generic(scoped@, d) is None,
        },
{
    let mut i: usize = 0;
    proof {
        assert(scoped@.skip(0) =~= scoped@);
    }
    while i < scoped.len()
        invariant
            i <= scoped@.len(),
            spec_first_generic(scoped@, d) == spec_first_generic(scoped@.skip(i as int), d),
        decreases scoped@.len() - i,
    {
        let s = &scoped[i];
        let applies = s.direction == d && match &s.target {
            Some(_) => false,
            None => true,
        };
        proof {
            assert(scoped@.skip(i as int)[0] == scoped@[i as int]);
            assert(applies == spec_is_generic(scoped@[i as int], d));
        }
        if applies {
            return Some(i);
        }
        proof {
            assert(scoped@.skip(i as int).drop_first() =~= scoped@.skip(i as int + 1));
        }
        i = i + 1;
    }
    proof {
        assert(scoped@.skip(i as int) =~= Seq::<ScopedDirective>::empty());
    }
    None
}

fn pick_rename(narrow: Option<&DirectiveSet>, middle: Option<&DirectiveSet>, broad: &DirectiveSet)
    -> (r: Option<String>)
    ensures
        r == spec_pick(
            spec_scope_rename(deref_opt(narrow)),
            spec_scope_rename(deref_opt(middle)),
            broad.rename,
        ),
{
    if let Some(s) = narrow {
        if s.rename.is_some() {
            return clone_opt_string(&s.rename);
        }
    }
    if let Some(s) = middle {
        if s.rename.is_some() {
            return clone_opt_string(&s.rename);
        }
    }
    clone_opt_string(&broad.rename)
}

fn pick_with_func(
    narrow: Option<&DirectiveSet>,
    middle: Option<&DirectiveSet>,
    broad: &DirectiveSet,
) -> (r: Option<String>)
    ensures
        r == spec_pick(
            spec_scope_with_func(deref_opt(narrow)),
            spec_scope_with_func(deref_opt(middle)),
            broad.with_func,
        ),
{
    if let Some(s) = narrow {
        if s.with_func.is_some() {
            return clone_opt_string(&s.with_func);
        }
    }
    if let Some(s) = middle {
        if s.with_func.is_some() {
            return clone_opt_string(&s.with_func);
        }
    }
    clone_opt_string(&broad.with_func)
}

pub open spec fn deref_opt(o: Option<&DirectiveSet>) -> Option<DirectiveSet> {
    match o {
        Some(s) => Some(*s),
        None => None,
    }
}

fn pick_flag(narrow: Option<bool>, middle: Option<bool>, broad: Option<bool>) -> (r: bool)
    ensures
        r == spec_pick_flag(narrow, middle, broad),
{
    match narrow {
        Some(v) => v,
        None => match middle {
            Some(v) => v,
            None => match broad {
                Some(v) => v,
                None => false,
            },
        },
    }
}

/// Resolves the directives of one field or variant for one conversion: the
/// direction `d` toward (or from) the other type `path`.
pub fn resolve_directives(dirs: &FieldDirectives, d: ConversionMethod, path: &String) -> (r:
    EffectiveDirective)
    ensures
        r == spec_resolve(*dirs, d, path@),
{
    let sp_ix = find_specific(&dirs.scoped, d, path);
    let ge_ix = find_generic(&dirs.scoped, d);
    let sp: Option<&DirectiveSet> = match sp_ix {
        Some(j) => Some(&dirs.scoped[j].set),
        None => None,
    };
    let ge: Option<&DirectiveSet> = match ge_ix {
        Some(j) => Some(&dirs.scoped[j].set),
        None => None,
    };
    let sp_skip = match sp {
        Some(s) => s.skip,
        None => false,
    };
    let ge_skip = match ge {
        Some(s) => s.skip,
        None => false,
    };
    let sp_default = match sp {
        Some(s) => s.default,
        None => None,
    };
    let ge_default = match ge {
        Some(s) => s.default,
        None => None,
    };
    let sp_unwrap = match sp {
        Some(s) => s.unwrap,
        None => None,
    };
    let ge_unwrap = match ge {
        Some(s) => s.unwrap,
        None => None,
    };
    EffectiveDirective {
        rename: pick_rename(sp, ge, &dirs.global),
        skip: sp_skip || ge_skip || dirs.global.skip,
        default: pick_flag(sp_default, ge_default, dirs.global.default),
        unwrap: pick_flag(sp_unwrap, ge_unwrap, dirs.global.unwrap),
        with_func: pick_with_func(sp, ge, &dirs.global),
    }
}

/// Priority law: whenever the scope naming this exact direction and target
/// path sets an attribute, the resolved directive carries that scope's value,
/// whatever the broader scopes say.
pub proof fn lemma_specific_scope_priority(
    dirs: FieldDirectives,
    d: ConversionMethod,
    path: Seq<char>,
    sp: DirectiveSet,
)
    requires
        spec_first_specific(dirs.scoped@, d, path) == Some(sp),
    ensures
        sp.rename is Some ==> spec_resolve(dirs, d, path).rename == sp.rename,
        sp.default is Some ==> spec_resolve(dirs, d, path).default == sp.default.unwrap(),
        sp.unwrap is Some ==> spec_resolve(dirs, d, path).unwrap == sp.unwrap.unwrap(),
        sp.with_func is Some ==> spec_resolve(dirs, d, path).with_func == sp.with_func,
        sp.skip ==> spec_resolve(dirs, d, path).skip,
{
}

/// Skip is monotonic over scopes: if any applicable scope requests skipping,
/// the resolved directive skips, whatever else is set anywhere.
pub proof fn lemma_skip_any_scope(dirs: FieldDirectives, d: ConversionMethod, path: Seq<char>)
    ensures
        spec_scope_skip(spec_first_specific(dirs.scoped@, d, path)) ==> spec_resolve(
            dirs,
            d,
            path,
        ).skip,
        spec_scope_skip(spec_first_generic(dirs.scoped@, d)) ==> spec_resolve(dirs, d, path).skip,
        dirs.global.skip ==> spec_resolve(dirs, d, path).skip,
{
}

} // verus!
