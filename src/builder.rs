//! Builders for an employee record: one that checks at run time that the
//! required fields were set, and one that tracks them in its type.

use vstd::prelude::*;

verus! {

/// An employee record.
#[derive(Debug, Clone, PartialEq, Eq)]
pub struct Employee {
    pub name: String,
    pub uid: u32,
    pub experience: u32,
    pub wage: u32,
}

/// A builder of an `Employee` in which `name` and `uid` must be set and
/// `experience` and `wage` default to 0. `build` fails when a required field
/// is missing.
pub struct EmployeeBuilder {
    name: Option<String>,
    uid: Option<u32>,
    experience: u32,
    wage: u32,
}

/// What an `EmployeeBuilder` holds so far.
pub struct BuilderFields {
    pub name: Option<Seq<char>>,
    pub uid: Option<u32>,
    pub experience: u32,
    pub wage: u32,
}

impl View for EmployeeBuilder {
    type V = BuilderFields;

    closed spec fn view(&self) -> BuilderFields {
        BuilderFields {
            name: match self.name {
                Some(n) => Some(n@),
                None => None,
            },
            uid: self.uid,
            experience: self.experience,
            wage: self.wage,
        }
    }
}

impl Default for EmployeeBuilder {
    /// A builder with nothing set.
    fn default() -> (r: Self)
        ensures
            r@ == (BuilderFields { name: None, uid: None, experience: 0, wage: 0 }),
    {
        EmployeeBuilder { name: None, uid: None, experience: 0, wage: 0 }
    }
}

impl EmployeeBuilder {
    /// Sets the name.
    pub fn name(self, name: String) -> (r: Self)
        ensures
            r@ == (BuilderFields { name: Some(name@), ..self@ }),
    {
        EmployeeBuilder { name: Some(name), ..self }
    }

    /// Sets the identifier.
    pub fn uid(self, uid: u32) -> (r: Self)
        ensures
            r@ == (BuilderFields { uid: Some(uid), ..self@ }),
    {
        EmployeeBuilder { uid: Some(uid), ..self }
    }

    /// Sets the experience.
    pub fn experience(self, experience: u32) -> (r: Self)
        ensures
            r@ == (BuilderFields { experience, ..self@ }),
    {
        EmployeeBuilder { experience, ..self }
    }

    /// Sets the wage.
    pub fn wage(self, wage: u32) -> (r: Self)
        ensures
            r@ == (BuilderFields { wage, ..self@ }),
    {
        EmployeeBuilder { wage, ..self }
    }

    /// The employee, when both the name and the identifier were set.
    pub fn build(self) -> (r: Result<Employee, ()>)
        ensures
            r is Ok <==> (self@.name is Some && self@.uid is Some),
            r matches Ok(e) ==> {
                &&& Some(e.name@) == self@.name
                &&& Some(e.uid) == self@.uid
                &&& e.experience == self@.experience
                &&& e.wage == self@.wage
            },
    {
        match (self.name, self.uid) {
            (Some(name), Some(uid)) => Ok(
                Employee { name, uid, experience: self.experience, wage: self.wage },
            ),
            _ => Err(()),
        }
    }
}

/// A name state of a typed builder: named or not.
pub trait NameGetter {
    /// The name held, if any.
    spec fn name_field(&self) -> Option<Seq<char>>;

    /// The name held, or the empty string.
    fn get_name(&self) -> (r: String)
        ensures
            r@ == (match self.name_field() {
                Some(n) => n,
                None => Seq::<char>::empty(),
            }),
    ;
}

/// The state of a builder whose name has been set.
pub struct Named {
    name: String,
}

impl NameGetter for Named {
    closed spec fn name_field(&self) -> Option<Seq<char>> {
        Some(self.name@)
    }

    fn get_name(&self) -> (r: String) {
        self.name.clone()
    }
}

/// The state of a builder whose name has not been set.
pub struct NotNamed;

impl NameGetter for NotNamed {
    open spec fn name_field(&self) -> Option<Seq<char>> {
        None
    }

    fn get_name(&self) -> (r: String) {
        String::new()
    }
}

/// An identifier state of a typed builder: identified or not.
pub trait IdGetter {
    /// The identifier held, if any.
    spec fn id_field(&self) -> Option<u32>;

    /// The identifier held, or 0.
    fn get_id(&self) -> (r: u32)
        ensures
            r == (match self.id_field() {
                Some(i) => i,
                None => 0,
            }),
    ;
}

/// The state of a builder whose identifier has been set.
pub struct Identified {
    uid: u32,
}

impl IdGetter for Identified {
    closed spec fn id_field(&self) -> Option<u32> {
        Some(self.uid)
    }

    fn get_id(&self) -> (r: u32) {
        self.uid
    }
}

/// The state of a builder whose identifier has not been set.
pub struct UnIdentified;

impl IdGetter for UnIdentified {
    open spec fn id_field(&self) -> Option<u32> {
        None
    }

    fn get_id(&self) -> (r: u32) {
        0
    }
}

/// A builder of an `Employee` whose type records whether the name and the
/// identifier were set: `build` exists only once both are.
pub struct TypedEmployeeBuilder<Name, Id> where Name: NameGetter, Id: IdGetter {
    experience: u32,
    wage: u32,
    name: Name,
    uid: Id,
}

impl<Name: NameGetter, Id: IdGetter> View for TypedEmployeeBuilder<Name, Id> {
    type V = BuilderFields;

    closed spec fn view(&self) -> BuilderFields {
        BuilderFields {
            name: self.name.name_field(),
            uid: self.uid.id_field(),
            experience: self.experience,
            wage: self.wage,
        }
    }
}

impl Default for TypedEmployeeBuilder<NotNamed, UnIdentified> {
    /// A builder with nothing set.
    fn default() -> (r: Self)
        ensures
            r@ == (BuilderFields { name: None, uid: None, experience: 0, wage: 0 }),
    {
        TypedEmployeeBuilder { experience: 0, wage: 0, name: NotNamed, uid: UnIdentified }
    }
}

impl TypedEmployeeBuilder<NotNamed, UnIdentified> {
    /// Sets the name.
    pub fn name(self, name: String) -> (r: TypedEmployeeBuilder<Named, UnIdentified>)
        ensures
            r@ == (BuilderFields { name: Some(name@), ..self@ }),
    {
        TypedEmployeeBuilder {
            experience: self.experience,
            wage: self.wage,
            name: Named { name },
            uid: self.uid,
        }
    }

    /// Sets the identifier.
    pub fn uid(self, uid: u32) -> (r: TypedEmployeeBuilder<NotNamed, Identified>)
        ensures
            r@ == (BuilderFields { uid: Some(uid), ..self@ }),
    {
        TypedEmployeeBuilder {
            experience: self.experience,
            wage: self.wage,
            name: self.name,
            uid: Identified { uid },
        }
    }
}

impl TypedEmployeeBuilder<Named, UnIdentified> {
    /// Sets the identifier.
    pub fn uid(self, uid: u32) -> (r: TypedEmployeeBuilder<Named, Identified>)
        ensures
            r@ == (BuilderFields { uid: Some(uid), ..self@ }),
    {
        TypedEmployeeBuilder {
            experience: self.experience,
            wage: self.wage,
            name: self.name,
            uid: Identified { uid },
        }
    }
}

impl TypedEmployeeBuilder<NotNamed, Identified> {
    /// Sets the name.
    pub fn name(self, name: String) -> (r: TypedEmployeeBuilder<Named, Identified>)
        ensures
            r@ == (BuilderFields { name: Some(name@), ..self@ }),
    {
        TypedEmployeeBuilder {
            experience: self.experience,
            wage: self.wage,
            name: Named { name },
            uid: self.uid,
        }
    }
}

impl<Name: NameGetter, Id: IdGetter> TypedEmployeeBuilder<Name, Id> {
    /// Sets the experience.
    pub fn experience(self, experience: u32) -> (r: Self)
        ensures
            r@ == (BuilderFields { experience, ..self@ }),
    {
        TypedEmployeeBuilder { experience, ..self }
    }

    /// Sets the wage.
    pub fn wage(self, wage: u32) -> (r: Self)
        ensures
            r@ == (BuilderFields { wage, ..self@ }),
    {
        TypedEmployeeBuilder { wage, ..self }
    }
}

impl TypedEmployeeBuilder<Named, Identified> {
    /// The employee: its name and identifier were set.
    pub fn build(self) -> (r: Employee)
        ensures
            self@.name == Some(r.name@),
            self@.uid == Some(r.uid),
            r.experience == self@.experience,
            r.wage == self@.wage,
    {
        Employee {
            name: self.name.get_name(),
            uid: self.uid.get_id(),
            experience: self.experience,
            wage: self.wage,
        }
    }
}

/// How hard the author found the builders, from 0 (very easy) to 255 (very hard).
pub fn how_hard_was_this_section() -> (r: u8)
    ensures
        r == 200,
{
    200
}

/// How many hours the author spent on the builders.
pub fn how_many_hours_did_you_spend_on_this_section() -> (r: u8)
    ensures
        r == 3,
{
    3
}

} // verus!
