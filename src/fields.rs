use vstd::prelude::*;

verus! {

/// One field of a structure: its name (absent for a positional field), its
/// declared type as source text, and the names of the markers attached to it.
#[derive(Clone, Debug)]
pub struct Field {
    pub ident: Option<String>,
    pub ty: String,
    pub attrs: Vec<String>,
}

/// How a structure lists its fields.
#[derive(Clone, Copy, Debug, PartialEq, Eq, Structural)]
pub enum Style {
    Named,
    Tuple,
    Unit,
}

/// The fields of a structure, in declaration order.
#[derive(Clone, Debug)]
pub struct StructData {
    pub style: Style,
    pub fields: Vec<Field>,
}

/// Why a role could not be resolved or an implementation could not be
/// generated.
#[derive(Clone, Debug, PartialEq, Eq)]
pub enum GenError {
    /// More than one field carries the marker of one role.
    AmbiguousRole(String),
    /// No field carries the marker and no field has the conventional name.
    MissingRole(String),
    /// The structure has no field at all.
    NoFields,
    /// The structure does not list its fields by name.
    UnnamedFields,
}

impl Field {
    pub open spec fn has_attr(self, attr: Seq<char>) -> bool {
        exists|k: int| 0 <= k < self.attrs@.len() && (#[trigger] self.attrs@[k])@ == attr
    }

    pub open spec fn named(self, name: Seq<char>) -> bool {
        match self.ident {
            Some(n) => n@ == name,
            None => false,
        }
    }

    /// Whether one of the field's markers is `attr`.
    pub fn has_attribute(&self, attr: &str) -> (r: bool)
        ensures
            r == self.has_attr(attr@),
    {
        let want = attr.to_owned();
        let mut i: usize = 0;
        while i < self.attrs.len()
            invariant
                want@ == attr@,
                0 <= i <= self.attrs@.len(),
                forall|k: int| 0 <= k < i ==> (#[trigger] self.attrs@[k])@ != attr@,
            decreases self.attrs@.len() - i,
        {
            if self.attrs[i].eq(&want) {
                return true;
            }
            i = i + 1;
        }
        false
    }

    /// The field's name, if it has one.
    pub fn id(&self) -> (r: Option<String>)
        ensures
            r == self.ident,
    {
        match &self.ident {
            Some(n) => Some(n.clone()),
            None => None,
        }
    }
}

/// The positions of the fields that carry the marker `attr`, in order.
pub open spec fn marked(fields: Seq<Field>, attr: Seq<char>) -> Seq<int>
    decreases fields.len(),
{
    if fields.len() == 0 {
        Seq::empty()
    } else {
        let rest = marked(fields.drop_last(), attr);
        if fields.last().has_attr(attr) {
            rest.push(fields.len() - 1)
        } else {
            rest
        }
    }
}

/// The position of the first field called `name`.
pub open spec fn first_named(fields: Seq<Field>, name: Seq<char>) -> Option<int>
    decreases fields.len(),
{
    if fields.len() == 0 {
        None
    } else {
        match first_named(fields.drop_last(), name) {
            Some(i) => Some(i),
            None => if fields.last().named(name) {
                Some(fields.len() - 1)
            } else {
                None
            },
        }
    }
}

/// The field that carries the marker `attr`, when exactly one does; an
/// error when several do; nothing when none does.
pub open spec fn by_attr(fields: Seq<Field>, attr: Seq<char>) -> Result<Option<int>, ()> {
    let m = marked(fields, attr);
    if m.len() > 1 {
        Err(())
    } else if m.len() == 1 {
        Ok(Some(m[0]))
    } else {
        Ok(None)
    }
}

/// A role's field: the one marker-bearing field, or else the first field
/// with the conventional name.
pub open spec fn by_attr_or_id(fields: Seq<Field>, attr: Seq<char>, id: Seq<char>) -> Result<
    Option<int>,
    (),
> {
    match by_attr(fields, attr) {
        Ok(None) => Ok(first_named(fields, id)),
        other => other,
    }
}

pub open spec fn as_int(o: Option<usize>) -> Option<int> {
    match o {
        Some(i) => Some(i as int),
        None => None,
    }
}

/// An executable lookup result agrees with its specification; an ambiguity
/// is reported with the marker's name.
pub open spec fn agrees(r: Result<Option<usize>, GenError>, s: Result<Option<int>, ()>, attr: Seq<char>) -> bool {
    match s {
        Ok(o) => r matches Ok(p) && as_int(p) == o,
        Err(_) => r matches Err(GenError::AmbiguousRole(a)) && a@ == attr,
    }
}

impl StructData {
    /// All fields of the structure.
    pub fn get_fields(&self) -> (r: &Vec<Field>)
        ensures
            r@ == self.fields@,
    {
        &self.fields
    }

    /// The positions of the fields marked with `attr`, in order.
    pub fn get_fields_by_attr(&self, attr: &str) -> (r: Vec<usize>)
        ensures
            r@.map_values(|i: usize| i as int) == marked(self.fields@, attr@),
    {
        let fields = self.get_fields();
        let mut r: Vec<usize> = Vec::new();
        let mut i: usize = 0;
        while i < fields.len()
            invariant
                0 <= i <= fields@.len(),
                fields@ == self.fields@,
                r@.map_values(|i: usize| i as int) == marked(fields@.subrange(0, i as int), attr@),
            decreases fields@.len() - i,
        {
            proof {
                assert(fields@.subrange(0, i + 1).drop_last() =~= fields@.subrange(0, i as int));
            }
            if fields[i].has_attribute(attr) {
                r.push(i);
                assert(r@.map_values(|i: usize| i as int) =~= marked(
                    fields@.subrange(0, i + 1),
                    attr@,
                ));
            }
            i = i + 1;
        }
        assert(fields@.subrange(0, fields@.len() as int) =~= fields@);
        r
    }

    /// The position of the first field called `id`.
    pub fn get_field_by_id(&self, id: &str) -> (r: Option<usize>)
        ensures
            as_int(r) == first_named(self.fields@, id@),
    {
        let want = id.to_owned();
        let fields = self.get_fields();
        let mut found: Option<usize> = None;
        let mut i: usize = 0;
        while i < fields.len()
            invariant
                0 <= i <= fields@.len(),
                fields@ == self.fields@,
                want@ == id@,
                as_int(found) == first_named(fields@.subrange(0, i as int), id@),
            decreases fields@.len() - i,
        {
            proof {
                assert(fields@.subrange(0, i + 1).drop_last() =~= fields@.subrange(0, i as int));
            }
            if found.is_none() {
                let hit = match fields[i].id() {
                    Some(n) => n.eq(&want),
                    None => false,
                };
                if hit {
                    found = Some(i);
                }
            }
            i = i + 1;
        }
        assert(fields@.subrange(0, fields@.len() as int) =~= fields@);
        found
    }

    /// The field marked with `attr`, if exactly one is; an error if several
    /// are.
    pub fn get_field_by_attr(&self, attr: &str) -> (r: Result<Option<usize>, GenError>)
        ensures
            agrees(r, by_attr(self.fields@, attr@), attr@),
    {
        let fields = self.get_fields_by_attr(attr);
        proof {
            assert(fields@.len() == fields@.map_values(|i: usize| i as int).len());
        }
        if fields.len() > 1 {
            Err(GenError::AmbiguousRole(attr.to_owned()))
        } else if fields.len() == 1 {
            proof {
                assert(fields@.map_values(|i: usize| i as int)[0] == fields@[0] as int);
            }
            Ok(Some(fields[0]))
        } else {
            Ok(None)
        }
    }

    /// The field marked with `attr`, or else the first field called `id`.
    pub fn get_field_by_attr_or_id(&self, attr: &str, id: &str) -> (r: Result<
        Option<usize>,
        GenError,
    >)
        ensures
            agrees(r, by_attr_or_id(self.fields@, attr@, id@), attr@),
    {
        match self.get_field_by_attr(attr) {
            Ok(None) => Ok(self.get_field_by_id(id)),
            other => other,
        }
    }
}

/// `marked` lists exactly the positions of the marked fields, in strictly
/// increasing order.
pub proof fn lemma_marked(fields: Seq<Field>, attr: Seq<char>)
    ensures
        forall|k: int|
            0 <= k < marked(fields, attr).len() ==> 0 <= #[trigger] marked(fields, attr)[k]
                < fields.len() && fields[marked(fields, attr)[k]].has_attr(attr),
        forall|k: int, l: int|
            0 <= k < l < marked(fields, attr).len() ==> #[trigger] marked(fields, attr)[k]
                < #[trigger] marked(fields, attr)[l],
        forall|i: int|
            0 <= i < fields.len() && (#[trigger] fields[i]).has_attr(attr) ==> marked(
                fields,
                attr,
            ).contains(i),
    decreases fields.len(),
{
    if fields.len() > 0 {
        let rest = fields.drop_last();
        lemma_marked(rest, attr);
        assert forall|i: int|
            0 <= i < fields.len() && (#[trigger] fields[i]).has_attr(attr) implies marked(
                fields,
                attr,
            ).contains(i) by {
            if i < fields.len() - 1 {
                assert(rest[i] == fields[i]);
                let k = choose|k: int| 0 <= k < marked(rest, attr).len() && marked(rest, attr)[k] == i;
                assert(marked(fields, attr)[k] == i);
            } else {
                assert(marked(fields, attr).last() == i);
            }
        }
    }
}

/// `first_named` finds the first field with the name, and nothing when no
/// field has it.
pub proof fn lemma_first_named(fields: Seq<Field>, name: Seq<char>)
    ensures
        first_named(fields, name) matches Some(i) ==> 0 <= i < fields.len() && fields[i].named(name)
            && forall|j: int| 0 <= j < i ==> !(#[trigger] fields[j]).named(name),
        first_named(fields, name) is None ==> forall|j: int|
            0 <= j < fields.len() ==> !(#[trigger] fields[j]).named(name),
    decreases fields.len(),
{
    if fields.len() > 0 {
        let rest = fields.drop_last();
        lemma_first_named(rest, name);
        assert forall|j: int| 0 <= j < rest.len() implies rest[j] == fields[j] by {}
    }
}

/// When two fields carry the marker of one role, the role is ambiguous,
/// whatever the conventional name.
pub proof fn lemma_two_marked_ambiguous(fields: Seq<Field>, attr: Seq<char>, id: Seq<char>, i: int, j: int)
    requires
        0 <= i < fields.len(),
        0 <= j < fields.len(),
        i != j,
        fields[i].has_attr(attr),
        fields[j].has_attr(attr),
    ensures
        marked(fields, attr).len() > 1,
        by_attr(fields, attr) is Err,
        by_attr_or_id(fields, attr, id) is Err,
{
    lemma_marked(fields, attr);
    let m = marked(fields, attr);
    assert(m.contains(i));
    assert(m.contains(j));
    if m.len() <= 1 {
        let ki = choose|k: int| 0 <= k < m.len() && m[k] == i;
        let kj = choose|k: int| 0 <= k < m.len() && m[k] == j;
        assert(ki == kj);
    }
}

/// When exactly one field carries a role's marker, that field plays the
/// role, whatever its name.
pub proof fn lemma_one_marked(fields: Seq<Field>, attr: Seq<char>, id: Seq<char>, k: int)
    requires
        0 <= k < fields.len(),
        fields[k].has_attr(attr),
        forall|j: int| 0 <= j < fields.len() && j != k ==> !(#[trigger] fields[j]).has_attr(attr),
    ensures
        marked(fields, attr) == seq![k],
        by_attr_or_id(fields, attr, id) == Ok::<Option<int>, ()>(Some(k)),
{
    lemma_marked(fields, attr);
    let m = marked(fields, attr);
    assert(m.contains(k));
    assert forall|l: int| 0 <= l < m.len() implies m[l] == k by {
        assert(fields[m[l]].has_attr(attr));
    }
    if m.len() > 1 {
        assert(m[0] < m[1]);
    }
    assert(m =~= seq![k]);
}

/// When no field carries a role's marker, the role falls to the field with
/// the conventional name.
pub proof fn lemma_none_marked(fields: Seq<Field>, attr: Seq<char>, id: Seq<char>, k: int)
    requires
        0 <= k < fields.len(),
        fields[k].named(id),
        forall|j: int| 0 <= j < fields.len() && j != k ==> !(#[trigger] fields[j]).named(id),
        forall|j: int| 0 <= j < fields.len() ==> !(#[trigger] fields[j]).has_attr(attr),
    ensures
        by_attr_or_id(fields, attr, id) == Ok::<Option<int>, ()>(Some(k)),
{
    lemma_marked(fields, attr);
    let m = marked(fields, attr);
    if m.len() > 0 {
        assert(fields[m[0]].has_attr(attr));
    }
    lemma_first_named(fields, id);
}

} // verus!
