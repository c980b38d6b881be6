use vstd::prelude::*;
use crate::registro::{
    campo_texto, numero_en, obtener_numero, obtener_texto, texto_en, vista, Atributo, AtributoV,
    Campo, Item, ItemV,
};
use crate::texto::{decimal, i64_de_texto, leer_i64, texto_i64, unir};

verus! {

/// What a stored session record says when it is loaded.
#[derive(Debug)]
pub enum EstadoSesion {
    /// Nothing is stored under the session's key.
    Ausente,
    /// The record's expiry instant has passed; the record is to be deleted.
    Expirada,
    /// The session is current; this is its serialized data, if the record has any.
    Vigente(Option<String>),
}

pub open spec fn clave_sesion(id: Seq<char>) -> Seq<char> {
    "SESSION#"@ + id
}

/// The stored form of a session: its key, the kind discriminator, its id, its
/// serialized data when there is some, its expiry as a Unix timestamp, and when
/// it was written.
pub open spec fn item_de_sesion(
    id: Seq<char>,
    datos: Option<Seq<char>>,
    expira: int,
    creada: Seq<char>,
) -> ItemV {
    let inicio = seq![
        ("PK"@, AtributoV::S(clave_sesion(id))),
        ("SK"@, AtributoV::S("METADATA"@)),
        ("tipo"@, AtributoV::S("session"@)),
        ("session_id"@, AtributoV::S(id)),
    ];
    let con_datos = match datos {
        Some(d) => inicio.push(("data"@, AtributoV::S(d))),
        None => inicio,
    };
    con_datos.push(("expires_at"@, AtributoV::N(decimal(expira)))).push(
        ("created_at"@, AtributoV::S(creada)),
    )
}

/// Whether a stored session has expired: its expiry reads as a timestamp
/// earlier than `ahora`. A record whose expiry is missing or unreadable does
/// not expire.
pub open spec fn sesion_expirada(v: ItemV, ahora: int) -> bool {
    match numero_en(v, "expires_at"@) {
        Some(t) => match i64_de_texto(t) {
            Some(ts) => ts < ahora,
            None => false,
        },
        None => false,
    }
}

/// The key under which a session is stored.
pub fn clave_de_sesion(session_id: &str) -> (r: String)
    ensures
        r@ == clave_sesion(session_id@),
{
    unir("SESSION#", session_id)
}

/// The stored form of a session.
pub fn session_to_item(session_id: &str, datos: Option<String>, expira: i64, creada: String) -> (r:
    Item)
    ensures
        vista(r@) == item_de_sesion(
            session_id@,
            match datos {
                Some(d) => Some(d@),
                None => None,
            },
            expira as int,
            creada@,
        ),
{
    let mut item: Vec<Campo> = Vec::new();
    item.push(campo_texto("PK", clave_de_sesion(session_id)));
    item.push(campo_texto("SK", String::from_str("METADATA")));
    item.push(campo_texto("tipo", String::from_str("session")));
    item.push(campo_texto("session_id", String::from_str(session_id)));
    match datos {
        Some(d) => {
            item.push(campo_texto("data", d));
        },
        None => {},
    }
    item.push(
        Campo { nombre: String::from_str("expires_at"), valor: Atributo::N(texto_i64(expira)) },
    );
    item.push(campo_texto("created_at", creada));
    assert(vista(item@) =~= item_de_sesion(
        session_id@,
        match datos {
            Some(d) => Some(d@),
            None => None,
        },
        expira as int,
        creada@,
    ));
    item
}

/// Decides what a loaded session record means at the Unix time `ahora`.
pub fn evaluar_sesion(registro: Option<&Item>, ahora: i64) -> (r: EstadoSesion)
    ensures
        registro is None ==> r is Ausente,
        registro is Some ==> ({
            let v = vista(registro->0@);
            if sesion_expirada(v, ahora as int) {
                r is Expirada
            } else {
                r matches EstadoSesion::Vigente(d) && match d {
                    Some(x) => texto_en(v, "data"@) == Some(x@),
                    None => texto_en(v, "data"@) is None,
                }
            }
        }),
{
    let item = match registro {
        Some(it) => it,
        None => {
            return EstadoSesion::Ausente;
        },
    };
    match obtener_numero(item, "expires_at") {
        Some(t) => match leer_i64(t.as_str()) {
            Some(ts) => {
                if ts < ahora {
                    return EstadoSesion::Expirada;
                }
            },
            None => {},
        },
        None => {},
    }
    EstadoSesion::Vigente(obtener_texto(item, "data"))
}

} // verus!
