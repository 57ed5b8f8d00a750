use vstd::prelude::*;
use crate::fields::{
    by_attr_or_id, lemma_marked, lemma_none_marked, lemma_one_marked, lemma_two_marked_ambiguous,
    marked, Field, GenError, StructData, Style,
};

verus! {

/// What a generation error says, as plain text.
pub enum Failure {
    Ambiguous(Seq<char>),
    Missing(Seq<char>),
    NoFields,
    UnnamedFields,
}

impl View for GenError {
    type V = Failure;

    open spec fn view(&self) -> Failure {
        match self {
            GenError::AmbiguousRole(a) => Failure::Ambiguous(a@),
            GenError::MissingRole(n) => Failure::Missing(n@),
            GenError::NoFields => Failure::NoFields,
            GenError::UnnamedFields => Failure::UnnamedFields,
        }
    }
}

pub open spec fn lift<P>(r: Result<P, GenError>) -> Result<P, Failure> {
    match r {
        Ok(p) => Ok(p),
        Err(e) => Err(e@),
    }
}

pub open spec fn lift_index(r: Result<usize, GenError>) -> Result<int, Failure> {
    match r {
        Ok(i) => Ok(i as int),
        Err(e) => Err(e@),
    }
}

/// Which fields an `Entity` implementation reads: positions in the
/// structure's field list.
#[derive(Clone, Copy, Debug, PartialEq, Eq, Structural)]
pub struct EntityPlan {
    pub id: usize,
    pub created_at: usize,
}

/// Which fields a `MutableEntity` implementation reads and writes.
#[derive(Clone, Copy, Debug, PartialEq, Eq, Structural)]
pub struct MutableEntityPlan {
    pub entity: EntityPlan,
    pub updated_at: usize,
}

/// Which field a `ValueType` implementation exposes, and compares by.
#[derive(Clone, Copy, Debug, PartialEq, Eq, Structural)]
pub struct ValueTypePlan {
    pub main: usize,
}

/// The input, output and error types of a `UseCase` implementation, as
/// source text.
#[derive(Clone, Debug)]
pub struct UseCasePlan {
    pub input: String,
    pub output: String,
    pub error: String,
}

/// The field of a role: the one marked with `attr`, or else the first one
/// called `id`.
pub open spec fn role(fields: Seq<Field>, attr: Seq<char>, id: Seq<char>) -> Result<int, Failure> {
    match by_attr_or_id(fields, attr, id) {
        Err(_) => Err(Failure::Ambiguous(attr)),
        Ok(None) => Err(Failure::Missing(id)),
        Ok(Some(i)) => Ok(i),
    }
}

pub open spec fn entity_spec(style: Style, fields: Seq<Field>) -> Result<EntityPlan, Failure> {
    if style != Style::Named {
        Err(Failure::UnnamedFields)
    } else {
        match role(fields, "id_field"@, "id"@) {
            Err(e) => Err(e),
            Ok(i) => match role(fields, "created_at_field"@, "created_at"@) {
                Err(e) => Err(e),
                Ok(j) => Ok(EntityPlan { id: i as usize, created_at: j as usize }),
            },
        }
    }
}

pub open spec fn mutable_entity_spec(style: Style, fields: Seq<Field>) -> Result<
    MutableEntityPlan,
    Failure,
> {
    match entity_spec(style, fields) {
        Err(e) => Err(e),
        Ok(p) => match role(fields, "updated_at_field"@, "updated_at"@) {
            Err(e) => Err(e),
            Ok(k) => Ok(MutableEntityPlan { entity: p, updated_at: k as usize }),
        },
    }
}

/// The main field: the one marked `main_field`, or else the first field.
pub open spec fn value_type_spec(fields: Seq<Field>) -> Result<ValueTypePlan, Failure> {
    let m = marked(fields, "main_field"@);
    if fields.len() == 0 {
        Err(Failure::NoFields)
    } else if m.len() > 1 {
        Err(Failure::Ambiguous("main_field"@))
    } else if m.len() == 1 {
        Ok(ValueTypePlan { main: m[0] as usize })
    } else {
        Ok(ValueTypePlan { main: 0 })
    }
}

/// A declared type, or the unit type when none is declared.
pub open spec fn type_or_unit(t: Option<String>) -> Seq<char> {
    match t {
        Some(s) => s@,
        None => "()"@,
    }
}

/// Resolves the field of one role.
pub fn resolve_role(data: &StructData, attr: &str, id: &str) -> (r: Result<usize, GenError>)
    ensures
        lift_index(r) == role(data.fields@, attr@, id@),
{
    match data.get_field_by_attr_or_id(attr, id) {
        Ok(Some(i)) => Ok(i),
        Ok(None) => Err(GenError::MissingRole(id.to_owned())),
        Err(e) => Err(e),
    }
}

/// Plans an `Entity` implementation: the identifier is the field marked
/// `id_field`, or else the field `id`; the creation time is the field marked
/// `created_at_field`, or else the field `created_at`.
pub fn plan_entity(data: &StructData) -> (r: Result<EntityPlan, GenError>)
    ensures
        lift(r) == entity_spec(data.style, data.fields@),
{
    if data.style != Style::Named {
        return Err(GenError::UnnamedFields);
    }
    let id = resolve_role(data, "id_field", "id")?;
    let created_at = resolve_role(data, "created_at_field", "created_at")?;
    Ok(EntityPlan { id, created_at })
}

/// Plans a `MutableEntity` implementation: an `Entity` plan, and the update
/// time, the field marked `updated_at_field` or else the field `updated_at`.
pub fn plan_mutable_entity(data: &StructData) -> (r: Result<MutableEntityPlan, GenError>)
    ensures
        lift(r) == mutable_entity_spec(data.style, data.fields@),
{
    let entity = plan_entity(data)?;
    let updated_at = resolve_role(data, "updated_at_field", "updated_at")?;
    Ok(MutableEntityPlan { entity, updated_at })
}

impl Field {
    /// Whether the field is marked as a value type's main field.
    pub fn is_main_field(&self) -> (r: bool)
        ensures
            r == self.has_attr("main_field"@),
    {
        self.has_attribute("main_field")
    }
}

/// Plans a `ValueType` implementation: the main field is the one marked
/// `main_field`, or the first field when none is marked.
pub fn plan_value_type(data: &StructData) -> (r: Result<ValueTypePlan, GenError>)
    ensures
        lift(r) == value_type_spec(data.fields@),
{
    let fields = data.get_fields();
    if fields.len() == 0 {
        return Err(GenError::NoFields);
    }
    let mut count: usize = 0;
    let mut first: usize = 0;
    let mut i: usize = 0;
    while i < fields.len()
        invariant
            0 <= i <= fields@.len(),
            fields@ == data.fields@,
            count == marked(fields@.subrange(0, i as int), "main_field"@).len(),
            count <= i,
            count > 0 ==> first == marked(fields@.subrange(0, i as int), "main_field"@)[0],
        decreases fields@.len() - i,
    {
        proof {
            let pre = fields@.subrange(0, i as int);
            let next = fields@.subrange(0, i + 1);
            assert(next.drop_last() =~= pre);
            assert(next.last() == fields@[i as int]);
        }
        if fields[i].is_main_field() {
            if count == 0 {
                first = i;
            }
            count = count + 1;
        }
        i = i + 1;
    }
    assert(fields@.subrange(0, fields@.len() as int) =~= fields@);
    if count > 1 {
        Err(GenError::AmbiguousRole("main_field".to_owned()))
    } else if count == 1 {
        Ok(ValueTypePlan { main: first })
    } else {
        Ok(ValueTypePlan { main: 0 })
    }
}

/// Plans a `UseCase` implementation: each of input, output and error is
/// the declared type, or the unit type when none is declared.
pub fn plan_usecase(input: Option<String>, output: Option<String>, error: Option<String>) -> (r:
    UseCasePlan)
    ensures
        r.input@ == type_or_unit(input),
        r.output@ == type_or_unit(output),
        r.error@ == type_or_unit(error),
{
    let input = match input {
        Some(t) => t,
        None => "()".to_owned(),
    };
    let output = match output {
        Some(t) => t,
        None => "()".to_owned(),
    };
    let error = match error {
        Some(t) => t,
        None => "()".to_owned(),
    };
    UseCasePlan { input, output, error }
}

/// A structure with no identifier marker and a field called `id` takes that
/// field as its identifier: a generated `id()` borrows it.
pub proof fn lemma_entity_id_by_name(fields: Seq<Field>, k: int)
    requires
        fields.len() <= usize::MAX,
        0 <= k < fields.len(),
        fields[k].named("id"@),
        forall|j: int| 0 <= j < fields.len() && j != k ==> !(#[trigger] fields[j]).named("id"@),
        forall|j: int| 0 <= j < fields.len() ==> !(#[trigger] fields[j]).has_attr("id_field"@),
    ensures
        role(fields, "id_field"@, "id"@) == Ok::<int, Failure>(k),
        entity_spec(Style::Named, fields) matches Ok(p) ==> p.id == k,
{
    lemma_none_marked(fields, "id_field"@, "id"@, k);
}

/// A structure with exactly one field marked `id_field` takes that field as
/// its identifier, whatever the field is called.
pub proof fn lemma_entity_id_by_marker(fields: Seq<Field>, k: int)
    requires
        fields.len() <= usize::MAX,
        0 <= k < fields.len(),
        fields[k].has_attr("id_field"@),
        forall|j: int|
            0 <= j < fields.len() && j != k ==> !(#[trigger] fields[j]).has_attr("id_field"@),
    ensures
        role(fields, "id_field"@, "id"@) == Ok::<int, Failure>(k),
        entity_spec(Style::Named, fields) matches Ok(p) ==> p.id == k,
{
    lemma_one_marked(fields, "id_field"@, "id"@, k);
}

/// Two fields marked with the marker of one role make that role, and so
/// the generation that needs it, fail as ambiguous.
pub proof fn lemma_role_ambiguous(fields: Seq<Field>, attr: Seq<char>, id: Seq<char>, i: int, j: int)
    requires
        0 <= i < fields.len(),
        0 <= j < fields.len(),
        i != j,
        fields[i].has_attr(attr),
        fields[j].has_attr(attr),
    ensures
        role(fields, attr, id) == Err::<int, Failure>(Failure::Ambiguous(attr)),
        attr == "id_field"@ && id == "id"@ ==> entity_spec(Style::Named, fields) == Err::<
            EntityPlan,
            Failure,
        >(Failure::Ambiguous(attr)),
        attr == "id_field"@ && id == "id"@ ==> mutable_entity_spec(Style::Named, fields) == Err::<
            MutableEntityPlan,
            Failure,
        >(Failure::Ambiguous(attr)),
        attr == "main_field"@ ==> value_type_spec(fields) == Err::<ValueTypePlan, Failure>(
            Failure::Ambiguous(attr),
        ),
{
    lemma_two_marked_ambiguous(fields, attr, id, i, j);
}

/// With one field marked `main_field`, a value type exposes that field;
/// with none marked, it exposes the first field.
pub proof fn lemma_main_field(fields: Seq<Field>)
    requires
        fields.len() > 0,
    ensures
        forall|k: int|
            0 <= k < fields.len() && fields[k].has_attr("main_field"@) && (forall|j: int|
                0 <= j < fields.len() && j != k ==> !(#[trigger] fields[j]).has_attr(
                    "main_field"@,
                )) ==> #[trigger] value_type_spec(fields) == Ok::<ValueTypePlan, Failure>(
                ValueTypePlan { main: k as usize },
            ),
        (forall|j: int| 0 <= j < fields.len() ==> !(#[trigger] fields[j]).has_attr("main_field"@))
            ==> value_type_spec(fields) == Ok::<ValueTypePlan, Failure>(ValueTypePlan { main: 0 }),
{
    lemma_marked(fields, "main_field"@);
    assert forall|k: int|
        0 <= k < fields.len() && fields[k].has_attr("main_field"@) && (forall|j: int|
            0 <= j < fields.len() && j != k ==> !(#[trigger] fields[j]).has_attr(
                "main_field"@,
            )) implies #[trigger] value_type_spec(fields) == Ok::<ValueTypePlan, Failure>(
        ValueTypePlan { main: k as usize },
    ) by {
        lemma_one_marked(fields, "main_field"@, "main_field"@, k);
    }
    let m = marked(fields, "main_field"@);
    if m.len() > 0 {
        assert(fields[m[0]].has_attr("main_field"@));
    }
}

} // verus!
