use vstd::prelude::*;

verus! {

/// A scalar value of a stored record: a string, a number written in decimal,
/// a boolean, or a value of any other kind.
#[derive(Debug)]
pub enum Atributo {
    S(String),
    N(String),
    Bool(bool),
    Otro,
}

pub enum AtributoV {
    S(Seq<char>),
    N(Seq<char>),
    Bool(bool),
    Otro,
}

impl View for Atributo {
    type V = AtributoV;

    open spec fn view(&self) -> AtributoV {
        match self {
            Atributo::S(s) => AtributoV::S(s@),
            Atributo::N(s) => AtributoV::N(s@),
            Atributo::Bool(b) => AtributoV::Bool(*b),
            Atributo::Otro => AtributoV::Otro,
        }
    }
}

/// One named field of a stored record.
#[derive(Debug)]
pub struct Campo {
    pub nombre: String,
    pub valor: Atributo,
}

impl View for Campo {
    type V = (Seq<char>, AtributoV);

    open spec fn view(&self) -> (Seq<char>, AtributoV) {
        (self.nombre@, self.valor@)
    }
}

/// A stored record as a flat list of named fields.
pub type Item = Vec<Campo>;

pub type ItemV = Seq<(Seq<char>, AtributoV)>;

pub open spec fn vista(item: Seq<Campo>) -> ItemV {
    item.map_values(|c: Campo| c@)
}

/// No two fields of a record share a name.
pub open spec fn nombres_unicos(v: ItemV) -> bool {
    forall|i: int, j: int| 0 <= i < j < v.len() ==> #[trigger] v[i].0 != #[trigger] v[j].0
}

/// The value of the first field with the given name.
pub open spec fn buscar(v: ItemV, nombre: Seq<char>) -> Option<AtributoV>
    decreases v.len(),
{
    if v.len() == 0 {
        None
    } else if v[0].0 == nombre {
        Some(v[0].1)
    } else {
        buscar(v.drop_first(), nombre)
    }
}

/// The first field with a name is the one that a lookup finds.
pub proof fn lemma_buscar_en(v: ItemV, nombre: Seq<char>, i: int)
    requires
        0 <= i < v.len(),
        v[i].0 == nombre,
        forall|j: int| 0 <= j < i ==> v[j].0 != nombre,
    ensures
        buscar(v, nombre) == Some(v[i].1),
    decreases i,
{
    if i > 0 {
        lemma_buscar_en(v.drop_first(), nombre, i - 1);
    }
}

/// A lookup of a name that no field has finds nothing.
pub proof fn lemma_buscar_ausente(v: ItemV, nombre: Seq<char>)
    requires
        forall|j: int| 0 <= j < v.len() ==> v[j].0 != nombre,
    ensures
        buscar(v, nombre) is None,
    decreases v.len(),
{
    if v.len() > 0 {
        lemma_buscar_ausente(v.drop_first(), nombre);
    }
}

/// The string held by a field, if the field is there and holds a string.
pub open spec fn texto_en(v: ItemV, nombre: Seq<char>) -> Option<Seq<char>> {
    match buscar(v, nombre) {
        Some(AtributoV::S(s)) => Some(s),
        _ => None,
    }
}

/// The decimal text held by a field, if the field is there and holds a number.
pub open spec fn numero_en(v: ItemV, nombre: Seq<char>) -> Option<Seq<char>> {
    match buscar(v, nombre) {
        Some(AtributoV::N(s)) => Some(s),
        _ => None,
    }
}

/// The boolean held by a field, if the field is there and holds a boolean.
pub open spec fn booleano_en(v: ItemV, nombre: Seq<char>) -> Option<bool> {
    match buscar(v, nombre) {
        Some(AtributoV::Bool(b)) => Some(b),
        _ => None,
    }
}

/// Finds the first field with the given name.
pub fn obtener<'a>(item: &'a Item, nombre: &str) -> (r: Option<&'a Atributo>)
    ensures
        match r {
            Some(a) => buscar(vista(item@), nombre@) == Some(a@),
            None => buscar(vista(item@), nombre@) is None,
        },
{
    let objetivo = String::from_str(nombre);
    let ghost v = vista(item@);
    let mut i: usize = 0;
    assert(v.subrange(0, v.len() as int) =~= v);
    while i < item.len()
        invariant
            i <= item@.len(),
            v == vista(item@),
            objetivo@ == nombre@,
            buscar(v, nombre@) == buscar(v.subrange(i as int, v.len() as int), nombre@),
        decreases item.len() - i,
    {
        let ghost resto = v.subrange(i as int, v.len() as int);
        assert(resto[0] == item@[i as int]@);
        if item[i].nombre == objetivo {
            return Some(&item[i].valor);
        }
        assert(resto.drop_first() =~= v.subrange(i + 1, v.len() as int));
        i = i + 1;
    }
    None
}

/// Reads the string held by a field.
pub fn obtener_texto(item: &Item, nombre: &str) -> (r: Option<String>)
    ensures
        match r {
            Some(s) => texto_en(vista(item@), nombre@) == Some(s@),
            None => texto_en(vista(item@), nombre@) is None,
        },
{
    match obtener(item, nombre) {
        Some(Atributo::S(s)) => Some(s.clone()),
        _ => None,
    }
}

/// Reads the decimal text held by a field.
pub fn obtener_numero(item: &Item, nombre: &str) -> (r: Option<String>)
    ensures
        match r {
            Some(s) => numero_en(vista(item@), nombre@) == Some(s@),
            None => numero_en(vista(item@), nombre@) is None,
        },
{
    match obtener(item, nombre) {
        Some(Atributo::N(s)) => Some(s.clone()),
        _ => None,
    }
}

/// Reads the boolean held by a field.
pub fn obtener_booleano(item: &Item, nombre: &str) -> (r: Option<bool>)
    ensures
        r == booleano_en(vista(item@), nombre@),
{
    match obtener(item, nombre) {
        Some(Atributo::Bool(b)) => Some(*b),
        _ => None,
    }
}

/// A field that holds a string.
pub fn campo_texto(nombre: &str, valor: String) -> (r: Campo)
    ensures
        r@ == (nombre@, AtributoV::S(valor@)),
{
    Campo { nombre: String::from_str(nombre), valor: Atributo::S(valor) }
}

} // verus!
