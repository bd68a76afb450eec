//! A model of the compliant-type generator: the step that, given a
//! user-defined aggregate type, produces a duplicate operation together with a
//! capability grant for it, sound by construction.
//!
//! The generator's obligations, stated here as contracts:
//! - the generated duplicate operation is purely structural: for a product
//!   type it duplicates each field independently, in field-declaration order;
//!   for a sum type it rebuilds the active variant with each payload component
//!   duplicated independently — never any independently named method attached
//!   to the type;
//! - the capability grant is conditioned on every constituent holding the
//!   grant, checked as one standalone obligation per field rather than as a
//!   bound naming the aggregate itself, so a self-referential type creates no
//!   unbounded obligation;
//! - when a constituent lacks the grant, the generator fails naming the first
//!   offending field and its type, never weakening the grant silently;
//! - the generated pair is a function of the declaration alone, so requesting
//!   the duplicate operation and the grant together in either order yields the
//!   same pair.
//!
//! Types are identified by opaque numeric identifiers; which identifiers hold
//! the capability is an input to the check, since only the surrounding
//! compiler knows it.

use vstd::prelude::*;

verus! {

/// A field of an aggregate type: its declared name and the identifier of its
/// declared type.
pub struct FieldDecl {
    pub name: String,
    pub ty: u64,
}

/// One variant of a sum type: its name and its payload fields in declaration
/// order.
pub struct VariantDecl {
    pub name: String,
    pub fields: Vec<FieldDecl>,
}

/// A user-defined aggregate type declaration: a product type with named
/// fields, or a sum type with tagged variants.
pub enum TypeDecl {
    Product { name: String, fields: Vec<FieldDecl> },
    Sum { name: String, variants: Vec<VariantDecl> },
}

/// The pair of implementations the generator produces for one declaration.
pub struct DerivedImpls {
    /// The generated duplicate operation, as its plan: for each variant (a
    /// product type has exactly one), the types of the payload components it
    /// duplicates, in declaration order.  Rebuilding the variant from these
    /// component duplicates is all the operation does.
    pub clone_steps: Vec<Vec<u64>>,
    /// The capability obligations emitted beside the grant: one per field of
    /// every variant, in declaration order, each naming the field's type and
    /// nothing else.
    pub obligations: Vec<u64>,
}

/// The types of a field sequence, in declaration order.
pub open spec fn tys_of(fields: Seq<FieldDecl>) -> Seq<u64> {
    fields.map_values(|f: FieldDecl| f.ty)
}

/// The duplicate plan a compliant generator must produce: one group of
/// component types per variant, each in declaration order.
pub open spec fn spec_clone_steps(d: TypeDecl) -> Seq<Seq<u64>> {
    match d {
        TypeDecl::Product { fields, .. } => seq![tys_of(fields@)],
        TypeDecl::Sum { variants, .. } => variants@.map_values(
            |v: VariantDecl| tys_of(v.fields@),
        ),
    }
}

/// The per-field obligations a compliant generator must emit: the type of
/// every field of every variant, in declaration order.
pub open spec fn spec_obligations(d: TypeDecl) -> Seq<u64> {
    match d {
        TypeDecl::Product { fields, .. } => tys_of(fields@),
        TypeDecl::Sum { variants, .. } => variants@.flat_map(
            |v: VariantDecl| tys_of(v.fields@),
        ),
    }
}

/// What it means for `r` to be the pair of implementations generated for `d`.
pub open spec fn is_derived_for(r: DerivedImpls, d: TypeDecl) -> bool {
    &&& r.clone_steps@.map_values(|v: Vec<u64>| v@) == spec_clone_steps(d)
    &&& r.obligations@ == spec_obligations(d)
}

/// Produces the pair of implementations for one aggregate declaration: the
/// purely structural duplicate plan and the per-field capability obligations.
pub fn expand_derive_pure_clone(d: &TypeDecl) -> (r: DerivedImpls)
    ensures
        is_derived_for(r, *d),
{
    match d {
        TypeDecl::Product { fields, .. } => {
            let steps = field_tys(fields);
            let obligations = field_tys(fields);
            let mut clone_steps: Vec<Vec<u64>> = Vec::new();
            clone_steps.push(steps);
            proof {
                assert(clone_steps@.map_values(|v: Vec<u64>| v@) =~= seq![tys_of(fields@)]);
            }
            DerivedImpls { clone_steps, obligations }
        },
        TypeDecl::Sum { variants, .. } => {
            let mut clone_steps: Vec<Vec<u64>> = Vec::new();
            let mut obligations: Vec<u64> = Vec::new();
            let n = variants.len();
            let mut i: usize = 0;
            while i < n
                invariant
                    n == variants@.len(),
                    i <= n,
                    clone_steps@.map_values(|v: Vec<u64>| v@) == variants@.take(i as int)
                        .map_values(|v: VariantDecl| tys_of(v.fields@)),
                    obligations@ == variants@.take(i as int).flat_map(
                        |v: VariantDecl| tys_of(v.fields@),
                    ),
                decreases n - i,
            {
                let tys = field_tys(&variants[i].fields);
                let mut j: usize = 0;
                while j < tys.len()
                    invariant
                        j <= tys@.len(),
                        obligations@ == variants@.take(i as int).flat_map(
                            |v: VariantDecl| tys_of(v.fields@),
                        ) + tys@.take(j as int),
                    decreases tys@.len() - j,
                {
                    let ty = tys[j];
                    obligations.push(ty);
                    proof {
                        assert(tys@.take(j + 1) =~= tys@.take(j as int).push(ty));
                    }
                    j += 1;
                }
                clone_steps.push(tys);
                proof {
                    assert(variants@.take(i + 1) =~= variants@.take(i as int).push(
                        variants@[i as int],
                    ));
                    assert(clone_steps@ =~= clone_steps@.drop_last().push(tys));
                    clone_steps@.drop_last().lemma_push_map_commute(|v: Vec<u64>| v@, tys);
                    variants@.take(i as int).lemma_push_map_commute(
                        |v: VariantDecl| tys_of(v.fields@),
                        variants@[i as int],
                    );
                    variants@.lemma_flat_map_take_append(
                        |v: VariantDecl| tys_of(v.fields@),
                        i as int,
                    );
                    assert(tys@.take(tys@.len() as int) =~= tys@);
                }
                i += 1;
            }
            proof {
                assert(variants@.take(n as int) =~= variants@);
            }
            DerivedImpls { clone_steps, obligations }
        },
    }
}

/// The types of one variant's (or one product's) fields, in declaration
/// order.
fn field_tys(fields: &Vec<FieldDecl>) -> (r: Vec<u64>)
    ensures
        r@ == tys_of(fields@),
{
    let mut r: Vec<u64> = Vec::new();
    let n = fields.len();
    let mut i: usize = 0;
    while i < n
        invariant
            n == fields@.len(),
            i <= n,
            r@ == tys_of(fields@.take(i as int)),
        decreases n - i,
    {
        r.push(fields[i].ty);
        proof {
            assert(tys_of(fields@.take(i + 1)) =~= tys_of(fields@.take(i as int)).push(
                fields@[i as int].ty,
            ));
        }
        i += 1;
    }
    proof {
        assert(fields@.take(n as int) =~= fields@);
    }
    r
}

/// The build-time failure the generator raises for a non-compliant
/// declaration: it names the offending field and that field's declared type.
#[derive(Debug)]
pub struct GrantError {
    pub field: String,
    pub ty: u64,
}

/// Whether every field of every variant of `d` has its type among the granted
/// ones.  Each conjunct speaks of one field's declared type alone — never of
/// the aggregate itself — so the condition stays bounded however deeply the
/// aggregate refers to itself.
pub open spec fn all_fields_granted(d: TypeDecl, granted: Seq<u64>) -> bool {
    match d {
        TypeDecl::Product { fields, .. } => forall|j: int|
            0 <= j < fields@.len() ==> granted.contains(#[trigger] fields@[j].ty),
        TypeDecl::Sum { variants, .. } => forall|i: int, j: int|
            0 <= i < variants@.len() && 0 <= j < variants@[i].fields@.len() ==> granted.contains(
                #[trigger] variants@[i].fields@[j].ty,
            ),
    }
}

/// Whether `e` names the first field of `d`, in declaration order, whose type
/// is not among the granted ones: every earlier field is granted, and `e`
/// carries the offending field's name and type.
pub open spec fn names_first_ungranted(d: TypeDecl, granted: Seq<u64>, e: GrantError) -> bool {
    match d {
        TypeDecl::Product { fields, .. } => exists|j: int|
            {
                &&& 0 <= j < fields@.len()
                &&& !granted.contains(#[trigger] fields@[j].ty)
                &&& forall|k: int| 0 <= k < j ==> granted.contains(#[trigger] fields@[k].ty)
                &&& e.field@ == fields@[j].name@
                &&& e.ty == fields@[j].ty
            },
        TypeDecl::Sum { variants, .. } => exists|i: int, j: int|
            {
                &&& 0 <= i < variants@.len()
                &&& 0 <= j < variants@[i].fields@.len()
                &&& !granted.contains(#[trigger] variants@[i].fields@[j].ty)
                &&& forall|a: int, b: int|
                    0 <= a < variants@.len() && 0 <= b < variants@[a].fields@.len() && (a < i || (a
                        == i && b < j)) ==> granted.contains(#[trigger] variants@[a].fields@[b].ty)
                &&& e.field@ == variants@[i].fields@[j].name@
                &&& e.ty == variants@[i].fields@[j].ty
            },
    }
}

/// Whether `ty` is among the granted type identifiers.
fn is_granted(granted: &Vec<u64>, ty: u64) -> (r: bool)
    ensures
        r == granted@.contains(ty),
{
    let n = granted.len();
    let mut i: usize = 0;
    while i < n
        invariant
            n == granted@.len(),
            i <= n,
            forall|k: int| 0 <= k < i ==> granted@[k] != ty,
        decreases n - i,
    {
        if granted[i] == ty {
            return true;
        }
        i += 1;
    }
    false
}

/// Decides the capability grant for one aggregate declaration: the grant
/// holds exactly when every constituent field's type already holds it.  On
/// failure the result names the first non-compliant field, in declaration
/// order, and its type — the grant is never weakened silently.
#[verifier::loop_isolation(false)]
pub fn check_grant(d: &TypeDecl, granted: &Vec<u64>) -> (r: Result<(), GrantError>)
    ensures
        r is Ok <==> all_fields_granted(*d, granted@),
        r matches Err(e) ==> names_first_ungranted(*d, granted@, e),
{
    match d {
        TypeDecl::Product { fields, .. } => {
            let n = fields.len();
            let mut j: usize = 0;
            while j < n
                invariant
                    n == fields@.len(),
                    j <= n,
                    forall|k: int| 0 <= k < j ==> granted@.contains(#[trigger] fields@[k].ty),
                decreases n - j,
            {
                if !is_granted(granted, fields[j].ty) {
                    return Err(GrantError { field: fields[j].name.clone(), ty: fields[j].ty });
                }
                j += 1;
            }
            Ok(())
        },
        TypeDecl::Sum { variants, .. } => {
            let n = variants.len();
            let mut i: usize = 0;
            while i < n
                invariant
                    n == variants@.len(),
                    i <= n,
                    forall|a: int, b: int|
                        0 <= a < i && 0 <= b < variants@[a].fields@.len() ==> granted@.contains(
                            #[trigger] variants@[a].fields@[b].ty,
                        ),
                decreases n - i,
            {
                let m = variants[i].fields.len();
                let mut j: usize = 0;
                while j < m
                    invariant
                        n == variants@.len(),
                        i < n,
                        m == variants@[i as int].fields@.len(),
                        j <= m,
                        forall|a: int, b: int|
                            0 <= a < i && 0 <= b < variants@[a].fields@.len() ==> granted@.contains(
                                #[trigger] variants@[a].fields@[b].ty,
                            ),
                        forall|b: int|
                            0 <= b < j ==> granted@.contains(
                                #[trigger] variants@[i as int].fields@[b].ty,
                            ),
                    decreases m - j,
                {
                    if !is_granted(granted, variants[i].fields[j].ty) {
                        return Err(
                            GrantError {
                                field: variants[i].fields[j].name.clone(),
                                ty: variants[i].fields[j].ty,
                            },
                        );
                    }
                    j += 1;
                }
                i += 1;
            }
            Ok(())
        },
    }
}

/// The generated pair is a function of the declaration alone: any two results
/// that meet the generator's contract for the same declaration are the same
/// pair.  Requesting the duplicate operation and the capability grant
/// together, in either order, therefore yields identical implementations.
pub proof fn lemma_generator_deterministic(d: TypeDecl, r1: DerivedImpls, r2: DerivedImpls)
    requires
        is_derived_for(r1, d),
        is_derived_for(r2, d),
    ensures
        r1.clone_steps@.map_values(|v: Vec<u64>| v@) == r2.clone_steps@.map_values(
            |v: Vec<u64>| v@,
        ),
        r1.obligations@ == r2.obligations@,
{
}

} // verus!
