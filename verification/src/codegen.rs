//! The generation contract for tagged-union error types.
//!
//! A tagged-union error type is declared as a set of variants, each
//! with a display template, named fields, and field tags. The generator
//! checks the shape rules of the contract and emits a plan: for each
//! variant, the kind of its nested cause and whether it records a
//! location. Rule violations are generation-time failures, never
//! runtime failures. Instantiating a planned variant yields a node
//! whose chain and classification behaviour agree with the plan by
//! construction, so the two capabilities cannot drift apart from the
//! variant list.
//!
//! The field-naming rules are part of the contract: the one nested
//! error of a variant is either an internal cause, which must be named
//! `source`, or an external cause, which must be named `error`; a
//! recorded location is the field named `location`. A display template
//! must not itself re-display any of those fields — the generated code
//! renders them.

use vstd::prelude::*;

use crate::location::SourceLocation;
use crate::node::CauseLink;
use crate::node::ErrorNode;
use crate::node::TaggedError;
use crate::status_code::StatusCode;

verus! {

/// One declared field of a variant: its name, and whether it holds a
/// nested failure.
#[derive(Debug)]
pub struct FieldDef {
    /// The field's name.
    pub name: String,
    /// Whether the field holds a nested failure.
    pub is_error: bool,
}

/// One declared variant of a tagged-union error type.
#[derive(Debug)]
pub struct VariantDef {
    /// The variant's name.
    pub name: String,
    /// The variant's display template, if it declares one. Declaring
    /// none violates the contract.
    pub template: Option<String>,
    /// The names of the fields the template re-displays.
    pub displays: Vec<String>,
    /// The variant's fields.
    pub fields: Vec<FieldDef>,
}

/// A declared tagged-union error type: its name and its variants.
#[derive(Debug)]
pub struct UnionDef {
    /// The type's name.
    pub name: String,
    /// The declared variants.
    pub variants: Vec<VariantDef>,
}

/// The kind of nested cause a variant declares.
#[derive(Clone, Copy, Debug, PartialEq, Eq, Structural)]
pub enum CauseKind {
    /// No nested failure.
    Absent,
    /// An internal cause: a node of this error model, chained.
    Internal,
    /// An external cause: a foreign failure, not chained.
    External,
}

/// A shape rule of the generation contract that a variant can violate.
#[derive(Clone, Copy, Debug, PartialEq, Eq, Structural)]
pub enum Violation {
    /// The variant declares no display template.
    MissingDisplay,
    /// The variant declares more than one nested-error field.
    MultipleNestedErrors,
    /// A nested-error field is named neither `source` nor `error`, so
    /// its tag is ambiguous.
    UntaggedNestedError,
    /// The display template re-displays a `source`, `error` or
    /// `location` field.
    DisplaysReservedField,
}

/// A generation-time failure: which rule was violated, and by which
/// variant.
#[derive(Debug)]
pub struct GenError {
    /// The violated rule.
    pub kind: Violation,
    /// The index of the violating variant.
    pub variant: usize,
}

/// The generated plan of one variant: its display template, the kind
/// of its nested cause, and whether it records a location.
#[derive(Debug)]
pub struct VariantPlan {
    /// The variant's display template.
    pub template: String,
    /// The kind of the variant's nested cause.
    pub cause: CauseKind,
    /// Whether the variant records a source location.
    pub has_location: bool,
}

/// The generated plan of a whole tagged-union error type, one entry
/// per variant, in declaration order.
#[derive(Debug)]
pub struct UnionPlan {
    /// The variants' plans.
    pub variants: Vec<VariantPlan>,
}

/// Whether `name` is reserved for the generated code: the nested-error
/// names and the location name, which a template must not re-display.
pub open spec fn is_reserved_name(name: Seq<char>) -> bool {
    name == "source"@ || name == "error"@ || name == "location"@
}

/// The number of nested-error fields among `fields`.
pub open spec fn n_error_fields(fields: Seq<FieldDef>) -> nat
    decreases fields.len(),
{
    if fields.len() == 0 {
        0
    } else {
        n_error_fields(fields.drop_last()) + if fields.last().is_error {
            1nat
        } else {
            0
        }
    }
}

impl VariantDef {
    /// Whether some nested-error field of this variant carries neither
    /// of the two cause tags.
    pub open spec fn has_untagged_error(self) -> bool {
        exists|k: int|
            0 <= k < self.fields@.len() && (#[trigger] self.fields@[k]).is_error
                && self.fields@[k].name@ != "source"@ && self.fields@[k].name@ != "error"@
    }

    /// Whether the template re-displays a reserved field.
    pub open spec fn displays_reserved(self) -> bool {
        exists|k: int|
            0 <= k < self.displays@.len() && is_reserved_name((#[trigger] self.displays@[k])@)
    }

    /// The kind of nested cause this variant declares, by the naming
    /// rule of the contract.
    pub open spec fn spec_cause(self) -> CauseKind {
        if exists|k: int|
            0 <= k < self.fields@.len() && (#[trigger] self.fields@[k]).is_error
                && self.fields@[k].name@ == "source"@ {
            CauseKind::Internal
        } else if exists|k: int|
            0 <= k < self.fields@.len() && (#[trigger] self.fields@[k]).is_error
                && self.fields@[k].name@ == "error"@ {
            CauseKind::External
        } else {
            CauseKind::Absent
        }
    }

    /// Whether this variant records a source location: it declares a
    /// plain field named `location`.
    pub open spec fn spec_has_location(self) -> bool {
        exists|k: int|
            0 <= k < self.fields@.len() && !(#[trigger] self.fields@[k]).is_error
                && self.fields@[k].name@ == "location"@
    }

    /// The display template this variant declares (meaningful where it
    /// declares one).
    pub open spec fn spec_template(self) -> Seq<char> {
        match self.template {
            Option::Some(t) => t@,
            Option::None => Seq::empty(),
        }
    }

    /// The first shape rule this variant violates, if any, in the
    /// fixed order the generator checks them.
    pub open spec fn spec_violation(self) -> Option<Violation> {
        if self.template is None {
            Option::Some(Violation::MissingDisplay)
        } else if n_error_fields(self.fields@) > 1 {
            Option::Some(Violation::MultipleNestedErrors)
        } else if self.has_untagged_error() {
            Option::Some(Violation::UntaggedNestedError)
        } else if self.displays_reserved() {
            Option::Some(Violation::DisplaysReservedField)
        } else {
            Option::None
        }
    }
}

/// Checks one variant against the shape rules; on success returns its
/// plan.
fn check_variant(v: &VariantDef) -> (r: Result<VariantPlan, Violation>)
    ensures
        match r {
            Ok(p) => v.spec_violation() is None && p.template@ == v.spec_template() && p.cause
                == v.spec_cause() && p.has_location == v.spec_has_location(),
            Err(k) => v.spec_violation() == Some(k),
        },
{
    let template: String = match &v.template {
        Option::Some(t) => t.clone(),
        Option::None => {
            return Err(Violation::MissingDisplay);
        },
    };
    let source_name = "source".to_owned();
    let error_name = "error".to_owned();
    let location_name = "location".to_owned();

    let mut n_errors: usize = 0;
    let mut internal = false;
    let mut external = false;
    let mut untagged = false;
    let mut has_location = false;
    let mut i: usize = 0;
    while i < v.fields.len()
        invariant
            0 <= i <= v.fields@.len(),
            source_name@ == "source"@,
            error_name@ == "error"@,
            location_name@ == "location"@,
            n_errors <= i,
            n_errors == n_error_fields(v.fields@.take(i as int)),
            internal == exists|k: int|
                0 <= k < i && (#[trigger] v.fields@[k]).is_error && v.fields@[k].name@
                    == "source"@,
            external == exists|k: int|
                0 <= k < i && (#[trigger] v.fields@[k]).is_error && v.fields@[k].name@
                    == "error"@,
            untagged == exists|k: int|
                0 <= k < i && (#[trigger] v.fields@[k]).is_error && v.fields@[k].name@
                    != "source"@ && v.fields@[k].name@ != "error"@,
            has_location == exists|k: int|
                0 <= k < i && !(#[trigger] v.fields@[k]).is_error && v.fields@[k].name@
                    == "location"@,
        decreases v.fields@.len() - i,
    {
        let f = &v.fields[i];
        proof {
            reveal_strlit("source");
            reveal_strlit("error");
            reveal_strlit("location");
            assert("source"@.len() == 6);
            assert("error"@.len() == 5);
            assert("source"@ != "error"@);
            assert(v.fields@.take(i + 1).drop_last() =~= v.fields@.take(i as int));
            assert(v.fields@.take(i + 1).last() == v.fields@[i as int]);
        }
        if f.is_error {
            n_errors = n_errors + 1;
            if f.name == source_name {
                internal = true;
            } else if f.name == error_name {
                external = true;
            } else {
                untagged = true;
            }
        } else {
            if f.name == location_name {
                has_location = true;
            }
        }
        i = i + 1;
    }
    proof {
        assert(v.fields@.take(v.fields@.len() as int) =~= v.fields@);
    }

    if n_errors > 1 {
        return Err(Violation::MultipleNestedErrors);
    }
    if untagged {
        return Err(Violation::UntaggedNestedError);
    }

    let mut k: usize = 0;
    while k < v.displays.len()
        invariant
            0 <= k <= v.displays@.len(),
            v.template is Some,
            n_error_fields(v.fields@) <= 1,
            !v.has_untagged_error(),
            source_name@ == "source"@,
            error_name@ == "error"@,
            location_name@ == "location"@,
            forall|j: int| 0 <= j < k ==> !is_reserved_name((#[trigger] v.displays@[j])@),
        decreases v.displays@.len() - k,
    {
        let d = &v.displays[k];
        if *d == source_name || *d == error_name || *d == location_name {
            proof {
                assert(is_reserved_name((v.displays@[k as int])@));
                assert(v.displays_reserved());
            }
            return Err(Violation::DisplaysReservedField);
        }
        k = k + 1;
    }

    let cause = if internal {
        CauseKind::Internal
    } else if external {
        CauseKind::External
    } else {
        CauseKind::Absent
    };
    Ok(VariantPlan { template, cause, has_location })
}

/// Checks a declared tagged-union error type against the shape rules
/// of the generation contract. On success, the plan holds one entry
/// per variant, in order: its template, its cause kind by the naming
/// rule, and whether it records a location. On failure, the error
/// names the first violating variant and the rule it breaks.
pub fn generate(def: &UnionDef) -> (r: Result<UnionPlan, GenError>)
    ensures
        match r {
            Ok(plan) => {
                &&& forall|i: int|
                    0 <= i < def.variants@.len() ==> (#[trigger] def.variants@[
                        i
                    ]).spec_violation() is None
                &&& plan.variants@.len() == def.variants@.len()
                &&& forall|i: int|
                    0 <= i < def.variants@.len() ==> (#[trigger] plan.variants@[i]).template@
                        == def.variants@[i].spec_template() && plan.variants@[i].cause
                        == def.variants@[i].spec_cause() && plan.variants@[i].has_location
                        == def.variants@[i].spec_has_location()
            },
            Err(e) => {
                &&& e.variant < def.variants@.len()
                &&& def.variants@[e.variant as int].spec_violation() == Some(e.kind)
                &&& forall|j: int|
                    0 <= j < e.variant ==> (#[trigger] def.variants@[j]).spec_violation() is None
            },
        },
{
    let mut plans: Vec<VariantPlan> = Vec::new();
    let mut i: usize = 0;
    while i < def.variants.len()
        invariant
            0 <= i <= def.variants@.len(),
            plans@.len() == i,
            forall|j: int|
                0 <= j < i ==> (#[trigger] def.variants@[j]).spec_violation() is None,
            forall|j: int|
                0 <= j < i ==> (#[trigger] plans@[j]).template@ == def.variants@[
                    j
                ].spec_template() && plans@[j].cause == def.variants@[j].spec_cause()
                    && plans@[j].has_location == def.variants@[j].spec_has_location(),
        decreases def.variants@.len() - i,
    {
        match check_variant(&def.variants[i]) {
            Ok(p) => {
                plans.push(p);
            },
            Err(kind) => {
                return Err(GenError { kind, variant: i });
            },
        }
        i = i + 1;
    }
    Ok(UnionPlan { variants: plans })
}

impl VariantPlan {
    /// Instantiates this planned variant as an error node. The shape
    /// of the supplied parts must agree with the plan: the cause slot
    /// carries an internal node exactly under an internal plan, a
    /// foreign failure exactly under an external plan, and nothing
    /// otherwise; a location is recorded exactly where the plan
    /// declares one. The node's chain then agrees with the plan by
    /// construction: its next node is the internal cause where the
    /// plan is internal, and absent otherwise.
    pub fn instantiate(
        &self,
        status: StatusCode,
        message: String,
        cause: CauseLink,
        location: Option<SourceLocation>,
    ) -> (n: ErrorNode)
        requires
            match cause {
                CauseLink::Root => self.cause == CauseKind::Absent,
                CauseLink::Internal(_) => self.cause == CauseKind::Internal,
                CauseLink::External(_) => self.cause == CauseKind::External,
            },
            location is Some <==> self.has_location,
        ensures
            n matches ErrorNode::Tagged(t) && t.status == status && t.message@ == message@
                && t.cause == cause && t.location == location,
            n.spec_status() == status,
            n.spec_message() == message@,
            self.cause == CauseKind::Internal ==> n.spec_next() == Some(
                *cause->Internal_0,
            ),
            self.cause != CauseKind::Internal ==> n.spec_next() is None,
            self.cause == CauseKind::Absent ==> !n.has_lang_cause(),
            self.cause != CauseKind::Absent ==> n.has_lang_cause(),
    {
        ErrorNode::Tagged(TaggedError { status, message, location, cause })
    }
}

} // verus!
