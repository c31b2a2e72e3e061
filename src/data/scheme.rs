use vstd::prelude::*;

use crate::errors::{ErrorKinsper, TypeErrorKinsper};

verus! {

/// The write payload of a creation: every field is given.
#[derive(Debug)]
pub struct CreateUserScheme {
    pub id: String,
    pub name: String,
    pub mail: String,
}

/// A partial update as the contracts see it.
pub ghost struct UpdateView {
    pub id: Option<Seq<char>>,
    pub name: Option<Seq<char>>,
    pub mail: Option<Seq<char>>,
    pub query_set: Seq<char>,
}

/// A partial update of a user row: the fields to set, and the rendered
/// `SET` clause once finalized. Field values are never part of the clause:
/// each column is assigned a positional parameter, and `bind_values` gives
/// the values to bind, in the clause's order.
#[derive(Debug)]
pub struct UpdateUserSchema {
    pub id: Option<String>,
    pub name: Option<String>,
    pub mail: Option<String>,
    pub query_set: String,
}

pub open spec fn opt_view(o: Option<String>) -> Option<Seq<char>> {
    match o {
        Some(s) => Some(s@),
        None => None,
    }
}

impl View for UpdateUserSchema {
    type V = UpdateView;

    open spec fn view(&self) -> UpdateView {
        UpdateView {
            id: opt_view(self.id),
            name: opt_view(self.name),
            mail: opt_view(self.mail),
            query_set: self.query_set@,
        }
    }
}

/// Whether the update names at least one field.
pub open spec fn has_fields(u: UpdateView) -> bool {
    u.id is Some || u.name is Some || u.mail is Some
}

pub open spec fn fragment_if(present: bool, fragment: Seq<char>) -> Seq<Seq<char>> {
    if present {
        seq![fragment]
    } else {
        Seq::empty()
    }
}

/// The assignment fragments of the present fields, in the order id, name, mail.
pub open spec fn update_fragments(u: UpdateView) -> Seq<Seq<char>> {
    fragment_if(u.id is Some, "id = ?"@) + fragment_if(u.name is Some, "name = ?"@)
        + fragment_if(u.mail is Some, "mail = ?"@)
}

pub open spec fn value_if(o: Option<Seq<char>>) -> Seq<Seq<char>> {
    match o {
        Some(v) => seq![v],
        None => Seq::empty(),
    }
}

/// The values bound to the clause's parameters, in the clause's order.
pub open spec fn update_values(u: UpdateView) -> Seq<Seq<char>> {
    value_if(u.id) + value_if(u.name) + value_if(u.mail)
}

/// The fragments joined with `", "`.
pub open spec fn join_fragments(f: Seq<Seq<char>>) -> Seq<char>
    decreases f.len(),
{
    if f.len() == 0 {
        Seq::empty()
    } else if f.len() == 1 {
        f[0]
    } else {
        join_fragments(f.drop_last()) + ", "@ + f.last()
    }
}

/// The `SET` clause of an update.
pub open spec fn update_clause(u: UpdateView) -> Seq<char> {
    join_fragments(update_fragments(u))
}

proof fn lemma_join_nonempty(f: Seq<Seq<char>>)
    requires
        f.len() > 0,
        f.last().len() > 0,
    ensures
        join_fragments(f).len() > 0,
{
}

fn join_parts(parts: &Vec<&'static str>) -> (r: String)
    ensures
        r@ == join_fragments(parts@.map_values(|p: &'static str| p@)),
{
    let ghost views = parts@.map_values(|p: &'static str| p@);
    let mut r = String::new();
    let mut i: usize = 0;
    while i < parts.len()
        invariant
            i <= parts@.len(),
            views == parts@.map_values(|p: &'static str| p@),
            r@ == join_fragments(views.take(i as int)),
        decreases parts@.len() - i,
    {
        if i > 0 {
            r.append(", ");
        }
        r.append(parts[i]);
        proof {
            assert(views.take(i + 1).drop_last() =~= views.take(i as int));
            if i == 0 {
                assert(r@ =~= views.take(1)[0]);
            }
        }
        i = i + 1;
    }
    assert(views.take(i as int) =~= views);
    r
}

fn clone_opt(o: &Option<String>) -> (r: Option<String>)
    ensures
        opt_view(r) == opt_view(*o),
{
    match o {
        Some(s) => Some(s.clone()),
        None => None,
    }
}

impl UpdateUserSchema {
    /// An update that names no field yet.
    pub fn new() -> (r: Self)
        ensures
            r@ == (UpdateView { id: None, name: None, mail: None, query_set: Seq::empty() }),
    {
        UpdateUserSchema { id: None, name: None, mail: None, query_set: String::new() }
    }

    /// The rendered clause; empty until `finalize`.
    pub fn query_set(&self) -> (r: &String)
        ensures
            r@ == self@.query_set,
    {
        &self.query_set
    }

    pub fn with_id(self, id: String) -> (r: Self)
        ensures
            r@ == (UpdateView { id: Some(id@), ..self@ }),
    {
        UpdateUserSchema { id: Some(id), ..self }
    }

    pub fn with_name(self, name: String) -> (r: Self)
        ensures
            r@ == (UpdateView { name: Some(name@), ..self@ }),
    {
        UpdateUserSchema { name: Some(name), ..self }
    }

    pub fn with_mail(self, mail: String) -> (r: Self)
        ensures
            r@ == (UpdateView { mail: Some(mail@), ..self@ }),
    {
        UpdateUserSchema { mail: Some(mail), ..self }
    }

    /// Renders the clause; an update that names no field is refused.
    pub fn finalize(self) -> (r: Result<Self, ErrorKinsper>)
        ensures
            r is Ok <==> has_fields(self@),
            r matches Ok(u) ==> u@ == (UpdateView { query_set: update_clause(self@), ..self@ }),
            r matches Ok(u) ==> u@.query_set.len() > 0,
            r matches Err(e) ==> e.type_error == TypeErrorKinsper::UpdateSchemeError
                && e.message@ == "No fields to update."@,
    {
        match self.prepare_query_set() {
            Ok(query_set) => Ok(UpdateUserSchema { query_set, ..self }),
            Err(e) => Err(e),
        }
    }

    /// The clause for the present fields, in the order id, name, mail.
    pub fn prepare_query_set(&self) -> (r: Result<String, ErrorKinsper>)
        ensures
            r is Ok <==> has_fields(self@),
            r matches Ok(q) ==> q@ == update_clause(self@) && q@.len() > 0,
            r matches Err(e) ==> e.type_error == TypeErrorKinsper::UpdateSchemeError
                && e.message@ == "No fields to update."@,
    {
        let mut parts: Vec<&'static str> = Vec::new();
        if self.id.is_some() {
            parts.push("id = ?");
        }
        if self.name.is_some() {
            parts.push("name = ?");
        }
        if self.mail.is_some() {
            parts.push("mail = ?");
        }
        let ghost views = parts@.map_values(|p: &'static str| p@);
        assert(views =~= update_fragments(self@));
        if parts.len() == 0 {
            return Err(
                ErrorKinsper::new(
                    TypeErrorKinsper::UpdateSchemeError,
                    String::from_str("No fields to update."),
                ),
            );
        }
        let q = join_parts(&parts);
        proof {
            reveal_strlit("id = ?");
            reveal_strlit("name = ?");
            reveal_strlit("mail = ?");
            lemma_join_nonempty(views);
        }
        Ok(q)
    }

    /// The values to bind to the clause's parameters, in the clause's order.
    pub fn bind_values(&self) -> (r: Vec<String>)
        ensures
            r@.map_values(|v: String| v@) == update_values(self@),
    {
        let mut r: Vec<String> = Vec::new();
        if let Some(v) = &self.id {
            r.push(v.clone());
        }
        if let Some(v) = &self.name {
            r.push(v.clone());
        }
        if let Some(v) = &self.mail {
            r.push(v.clone());
        }
        assert(r@.map_values(|v: String| v@) =~= update_values(self@));
        r
    }

    /// A copy of this update.
    pub fn duplicate(&self) -> (r: Self)
        ensures
            r@ == self@,
    {
        UpdateUserSchema {
            id: clone_opt(&self.id),
            name: clone_opt(&self.name),
            mail: clone_opt(&self.mail),
            query_set: self.query_set.clone(),
        }
    }
}

} // verus!
