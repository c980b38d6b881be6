use vstd::prelude::*;
use crate::fecha::{anios_entre, calcular_anios, fecha_leida, parse_fecha, Fecha};
use crate::registro::{
    buscar, booleano_en, campo_texto, nombres_unicos, lemma_buscar_ausente, lemma_buscar_en, obtener_booleano, obtener_texto, texto_en, vista, Atributo,
    AtributoV, Campo, Item, ItemV,
};
use crate::texto::unir;

verus! {

/// An employee. The last three fields are derived on reading and never stored.
#[derive(Clone, Debug)]
pub struct Empleado {
    pub id: String,
    pub nombre: String,
    pub departamento: String,
    pub email: String,
    pub es_admin: bool,
    /// The hire date, written `YYYY-MM-DD`.
    pub fecha_ingreso: String,
    /// The one-way hash of the password, absent until one is set.
    pub password_hash: Option<String>,
    pub dias_disponibles: Option<i32>,
    pub dias_tomados: Option<i32>,
    pub antiguedad_anos: Option<i32>,
}

pub struct EmpleadoV {
    pub id: Seq<char>,
    pub nombre: Seq<char>,
    pub departamento: Seq<char>,
    pub email: Seq<char>,
    pub es_admin: bool,
    pub fecha_ingreso: Seq<char>,
    pub password_hash: Option<Seq<char>>,
    pub dias_disponibles: Option<i32>,
    pub dias_tomados: Option<i32>,
    pub antiguedad_anos: Option<i32>,
}

pub open spec fn vista_opcional(o: Option<String>) -> Option<Seq<char>> {
    match o {
        Some(s) => Some(s@),
        None => None,
    }
}

impl View for Empleado {
    type V = EmpleadoV;

    open spec fn view(&self) -> EmpleadoV {
        EmpleadoV {
            id: self.id@,
            nombre: self.nombre@,
            departamento: self.departamento@,
            email: self.email@,
            es_admin: self.es_admin,
            fecha_ingreso: self.fecha_ingreso@,
            password_hash: vista_opcional(self.password_hash),
            dias_disponibles: self.dias_disponibles,
            dias_tomados: self.dias_tomados,
            antiguedad_anos: self.antiguedad_anos,
        }
    }
}

/// The statutory vacation days for a tenure in whole years: none before the
/// first year, 12 to 20 days in steps of 2 for years one to five, then 2 more
/// for every five further years.
pub open spec fn dias_de_ley(anos: int) -> int {
    if anos == 1 { 12 }
    else if anos == 2 { 14 }
    else if anos == 3 { 16 }
    else if anos == 4 { 18 }
    else if anos == 5 { 20 }
    else if anos >= 6 { 20 + 2 * ((anos - 5) / 5) }
    else { 0 }
}

/// Allotment minus consumed days, never below zero.
pub open spec fn dias_restantes(por_ley: int, tomados: int) -> int {
    if por_ley - tomados > 0 { por_ley - tomados } else { 0 }
}

/// Tenure on a given day for a hire date held as text; a text that is no date
/// counts as hired that same day.
pub open spec fn antiguedad_de(fecha_ingreso: Seq<char>, hoy: Fecha) -> int {
    match fecha_leida(fecha_ingreso) {
        Some(f) => anios_entre(f, hoy),
        None => 0,
    }
}

/// Computes the statutory vacation days for a tenure in whole years.
pub fn dias_por_ley(anos: i32) -> (r: i32)
    ensures
        r as int == dias_de_ley(anos as int),
        r >= 0,
{
    if anos == 1 {
        12
    } else if anos == 2 {
        14
    } else if anos == 3 {
        16
    } else if anos == 4 {
        18
    } else if anos == 5 {
        20
    } else if anos >= 6 {
        let incrementos: i32 = (anos - 5) / 5;
        20 + incrementos * 2
    } else {
        0
    }
}

/// Computes the days still available: allotment minus consumed, floored at zero.
pub fn dias_disponibles(por_ley: i32, tomados: i32) -> (r: i32)
    requires
        por_ley as int - tomados as int <= i32::MAX,
    ensures
        r as int == dias_restantes(por_ley as int, tomados as int),
        r >= 0,
{
    let resto: i64 = por_ley as i64 - tomados as i64;
    if resto > 0 {
        resto as i32
    } else {
        0
    }
}

pub open spec fn clave_empleado(id: Seq<char>) -> Seq<char> {
    "EMPLEADO#"@ + id
}

/// The stored form of an employee: the partition and sort keys, the stored
/// attributes, the kind discriminator, and the password hash when there is one.
pub open spec fn item_de_empleado(e: EmpleadoV) -> ItemV {
    let base = seq![
        ("PK"@, AtributoV::S(clave_empleado(e.id))),
        ("SK"@, AtributoV::S("METADATA"@)),
        ("id"@, AtributoV::S(e.id)),
        ("nombre"@, AtributoV::S(e.nombre)),
        ("departamento"@, AtributoV::S(e.departamento)),
        ("email"@, AtributoV::S(e.email)),
        ("es_admin"@, AtributoV::Bool(e.es_admin)),
        ("fecha_ingreso"@, AtributoV::S(e.fecha_ingreso)),
        ("tipo"@, AtributoV::S("empleado"@)),
    ];
    match e.password_hash {
        Some(h) => base.push(("password_hash"@, AtributoV::S(h))),
        None => base,
    }
}

/// The employee a stored record holds: every stored attribute must be there
/// with its kind; the password hash is optional; derived fields are unset.
pub open spec fn empleado_de_item(v: ItemV) -> Option<EmpleadoV> {
    if texto_en(v, "id"@) is Some && texto_en(v, "nombre"@) is Some
        && texto_en(v, "email"@) is Some && texto_en(v, "departamento"@) is Some
        && booleano_en(v, "es_admin"@) is Some && texto_en(v, "fecha_ingreso"@) is Some {
        Some(EmpleadoV {
            id: texto_en(v, "id"@)->0,
            nombre: texto_en(v, "nombre"@)->0,
            departamento: texto_en(v, "departamento"@)->0,
            email: texto_en(v, "email"@)->0,
            es_admin: booleano_en(v, "es_admin"@)->0,
            fecha_ingreso: texto_en(v, "fecha_ingreso"@)->0,
            password_hash: texto_en(v, "password_hash"@),
            dias_disponibles: None,
            dias_tomados: None,
            antiguedad_anos: None,
        })
    } else {
        None
    }
}

/// The fields that an employee record cannot do without.
pub open spec fn campo_requerido_empleado(nombre: Seq<char>) -> bool {
    nombre == "id"@ || nombre == "nombre"@ || nombre == "email"@ || nombre == "departamento"@
        || nombre == "es_admin"@ || nombre == "fecha_ingreso"@
}

/// An employee as stored: the derived fields unset.
pub open spec fn sin_calculos(e: EmpleadoV) -> EmpleadoV {
    EmpleadoV { dias_disponibles: None, dias_tomados: None, antiguedad_anos: None, ..e }
}

impl Empleado {
    /// Tenure in whole years on the given day.
    pub fn calcular_antiguedad(&self, hoy: &Fecha) -> (r: i32)
        requires
            hoy.valida(),
        ensures
            r as int == antiguedad_de(self.fecha_ingreso@, *hoy),
    {
        match parse_fecha(self.fecha_ingreso.as_str()) {
            Some(f) => calcular_anios(&f, hoy),
            None => 0,
        }
    }

    /// Statutory vacation days on the given day.
    pub fn calcular_dias_por_ley(&self, hoy: &Fecha) -> (r: i32)
        requires
            hoy.valida(),
        ensures
            r as int == dias_de_ley(antiguedad_de(self.fecha_ingreso@, *hoy)),
            r >= 0,
    {
        dias_por_ley(self.calcular_antiguedad(hoy))
    }

    /// Days still available on the given day, after `dias_tomados` consumed days.
    pub fn calcular_dias_disponibles(&self, hoy: &Fecha, dias_tomados: i32) -> (r: i32)
        requires
            hoy.valida(),
            dias_de_ley(antiguedad_de(self.fecha_ingreso@, *hoy)) - dias_tomados <= i32::MAX,
        ensures
            r as int == dias_restantes(
                dias_de_ley(antiguedad_de(self.fecha_ingreso@, *hoy)),
                dias_tomados as int,
            ),
            r >= 0,
    {
        dias_disponibles(self.calcular_dias_por_ley(hoy), dias_tomados)
    }

    /// The stored form of this employee.
    pub fn to_item(&self) -> (r: Item)
        ensures
            vista(r@) == item_de_empleado(self@),
            nombres_unicos(vista(r@)),
    {
        let mut item: Vec<Campo> = Vec::new();
        item.push(campo_texto("PK", unir("EMPLEADO#", self.id.as_str())));
        item.push(campo_texto("SK", String::from_str("METADATA")));
        item.push(campo_texto("id", self.id.clone()));
        item.push(campo_texto("nombre", self.nombre.clone()));
        item.push(campo_texto("departamento", self.departamento.clone()));
        item.push(campo_texto("email", self.email.clone()));
        item.push(Campo { nombre: String::from_str("es_admin"), valor: Atributo::Bool(self.es_admin) });
        item.push(campo_texto("fecha_ingreso", self.fecha_ingreso.clone()));
        item.push(campo_texto("tipo", String::from_str("empleado")));
        match &self.password_hash {
            Some(h) => {
                item.push(campo_texto("password_hash", h.clone()));
            },
            None => {},
        }
        assert(vista(item@) =~= item_de_empleado(self@));
        proof {
            lemma_empleado_nombres_unicos(self@);
        }
        item
    }

    /// Reads an employee from its stored form; `None` when a stored attribute
    /// is missing or of the wrong kind.
    pub fn from_item(item: &Item) -> (r: Option<Empleado>)
        ensures
            match r {
                Some(e) => empleado_de_item(vista(item@)) == Some(e@),
                None => empleado_de_item(vista(item@)) is None,
            },
    {
        let id = obtener_texto(item, "id")?;
        let nombre = obtener_texto(item, "nombre")?;
        let email = obtener_texto(item, "email")?;
        let departamento = obtener_texto(item, "departamento")?;
        let es_admin = obtener_booleano(item, "es_admin")?;
        let fecha_ingreso = obtener_texto(item, "fecha_ingreso")?;
        let password_hash = obtener_texto(item, "password_hash");
        Some(Empleado {
            id,
            nombre,
            departamento,
            email,
            es_admin,
            fecha_ingreso,
            password_hash,
            dias_disponibles: None,
            dias_tomados: None,
            antiguedad_anos: None,
        })
    }
}

/// Storing an employee and reading the record back gives the same employee,
/// with the derived fields unset.
pub proof fn lemma_empleado_ida_y_vuelta(e: EmpleadoV)
    ensures
        empleado_de_item(item_de_empleado(e)) == Some(sin_calculos(e)),
{
    reveal_strlit("PK");
    reveal_strlit("SK");
    reveal_strlit("id");
    reveal_strlit("nombre");
    reveal_strlit("departamento");
    reveal_strlit("email");
    reveal_strlit("es_admin");
    reveal_strlit("fecha_ingreso");
    reveal_strlit("tipo");
    reveal_strlit("password_hash");
    let v = item_de_empleado(e);
    assert(v[0].0[0] == 'P' && v[1].0[0] == 'S' && v[2].0[0] == 'i' && v[3].0[0] == 'n');
    assert(v[4].0[0] == 'd' && v[5].0[1] == 'm' && v[6].0[1] == 's' && v[7].0[0] == 'f');
    assert(v[8].0[0] == 't' && v[5].0[0] == 'e' && v[6].0[0] == 'e');
    lemma_buscar_en(v, "id"@, 2);
    lemma_buscar_en(v, "nombre"@, 3);
    lemma_buscar_en(v, "departamento"@, 4);
    lemma_buscar_en(v, "email"@, 5);
    lemma_buscar_en(v, "es_admin"@, 6);
    lemma_buscar_en(v, "fecha_ingreso"@, 7);
    match e.password_hash {
        Some(h) => {
            assert(v[9].0[0] == 'p');
            lemma_buscar_en(v, "password_hash"@, 9);
        },
        None => {
            assert("password_hash"@[0] == 'p');
            lemma_buscar_ausente(v, "password_hash"@);
        },
    }
}

/// The fields of an employee's stored form have distinct names.
pub proof fn lemma_empleado_nombres_unicos(e: EmpleadoV)
    ensures
        nombres_unicos(item_de_empleado(e)),
{
    reveal_strlit("PK");
    reveal_strlit("SK");
    reveal_strlit("id");
    reveal_strlit("nombre");
    reveal_strlit("departamento");
    reveal_strlit("email");
    reveal_strlit("es_admin");
    reveal_strlit("fecha_ingreso");
    reveal_strlit("tipo");
    reveal_strlit("password_hash");
    let v = item_de_empleado(e);
    assert(v[0].0[0] == 'P' && v[1].0[0] == 'S' && v[2].0[0] == 'i' && v[3].0[0] == 'n');
    assert(v[4].0[0] == 'd' && v[5].0[1] == 'm' && v[6].0[1] == 's' && v[7].0[0] == 'f');
    assert(v[8].0[0] == 't' && v[5].0[0] == 'e' && v[6].0[0] == 'e');
    if v.len() > 9 {
        assert(v[9].0[0] == 'p');
    }
    assert forall|i: int, j: int| 0 <= i < j < v.len() implies #[trigger] v[i].0 != #[trigger] v[j].0 by {
        if i == 5 && j == 6 {
            assert(v[i].0[1] != v[j].0[1]);
        } else {
            assert(v[i].0[0] != v[j].0[0]);
        }
    }
}

/// A record that lacks a field an employee cannot do without does not read as
/// an employee.
pub proof fn lemma_empleado_sin_campo(v: ItemV, nombre: Seq<char>)
    requires
        campo_requerido_empleado(nombre),
        buscar(v, nombre) is None,
    ensures
        empleado_de_item(v) is None,
{
}

} // verus!
