use vstd::prelude::*;
use crate::error::AppError;
use crate::fecha::{contar_dias_habiles, dias_habiles, fecha_leida, lemma_numero_acotado, numero_dia, parse_fecha};
use crate::registro::{
    campo_texto, lemma_buscar_en, nombres_unicos, numero_en, obtener_numero, obtener_texto, texto_en, vista,
    Atributo, AtributoV, Campo, Item, ItemV,
};
use crate::texto::{decimal, i32_de_texto, leer_i32, lemma_decimal_se_lee, texto_i32, unir};

verus! {

/// A vacation request. The employee's name is a copy taken when the request
/// was made.
#[derive(Clone, Debug)]
pub struct SolicitudVacaciones {
    pub id: String,
    pub empleado_id: String,
    pub empleado_nombre: String,
    /// First day, written `YYYY-MM-DD`.
    pub fecha_inicio: String,
    /// Last day, written `YYYY-MM-DD`.
    pub fecha_fin: String,
    /// One of `pendiente`, `aprobada`, `rechazada`.
    pub estado: String,
    /// Business days requested, counted when the request was made.
    pub dias_solicitados: i32,
    /// When the request was made, as RFC 3339.
    pub created_at: String,
}

/// What a caller supplies to make a request.
#[derive(Clone, Debug)]
pub struct NuevaSolicitud {
    pub empleado_id: String,
    pub empleado_nombre: String,
    pub fecha_inicio: String,
    pub fecha_fin: String,
}

pub struct SolicitudV {
    pub id: Seq<char>,
    pub empleado_id: Seq<char>,
    pub empleado_nombre: Seq<char>,
    pub fecha_inicio: Seq<char>,
    pub fecha_fin: Seq<char>,
    pub estado: Seq<char>,
    pub dias_solicitados: i32,
    pub created_at: Seq<char>,
}

impl View for SolicitudVacaciones {
    type V = SolicitudV;

    open spec fn view(&self) -> SolicitudV {
        SolicitudV {
            id: self.id@,
            empleado_id: self.empleado_id@,
            empleado_nombre: self.empleado_nombre@,
            fecha_inicio: self.fecha_inicio@,
            fecha_fin: self.fecha_fin@,
            estado: self.estado@,
            dias_solicitados: self.dias_solicitados,
            created_at: self.created_at@,
        }
    }
}

pub open spec fn vista_solicitudes(s: Seq<SolicitudVacaciones>) -> Seq<SolicitudV> {
    s.map_values(|x: SolicitudVacaciones| x@)
}

pub open spec fn es_estado_valido(e: Seq<char>) -> bool {
    e == "pendiente"@ || e == "aprobada"@ || e == "rechazada"@
}

/// The business days that a request from `inicio` to `fin` asks for; `None`
/// when either is no date or the end comes before the start.
pub open spec fn dias_pedidos(inicio: Seq<char>, fin: Seq<char>) -> Option<int> {
    match (fecha_leida(inicio), fecha_leida(fin)) {
        (Some(a), Some(b)) => if b.numero() < a.numero() {
            None
        } else {
            Some(dias_habiles(a.numero(), b.numero()))
        },
        _ => None,
    }
}

/// The reason given when a stored record does not read as what it should hold.
pub open spec fn registro_corrupto() -> Seq<char> {
    "Error al parsear solicitud"@
}

/// The reason given when a request's dates are refused.
pub open spec fn motivo_fechas(inicio: Seq<char>, fin: Seq<char>) -> Seq<char> {
    if fecha_leida(inicio) is None {
        "Formato de fecha_inicio inválido. Use YYYY-MM-DD"@
    } else if fecha_leida(fin) is None {
        "Formato de fecha_fin inválido. Use YYYY-MM-DD"@
    } else {
        "La fecha_fin debe ser posterior a fecha_inicio"@
    }
}

/// The stored form of a request, kept under its employee's partition.
pub open spec fn item_de_solicitud(s: SolicitudV) -> ItemV {
    seq![
        ("PK"@, AtributoV::S("EMPLEADO#"@ + s.empleado_id)),
        ("SK"@, AtributoV::S("SOLICITUD#"@ + s.id)),
        ("id"@, AtributoV::S(s.id)),
        ("empleado_id"@, AtributoV::S(s.empleado_id)),
        ("empleado_nombre"@, AtributoV::S(s.empleado_nombre)),
        ("fecha_inicio"@, AtributoV::S(s.fecha_inicio)),
        ("fecha_fin"@, AtributoV::S(s.fecha_fin)),
        ("estado"@, AtributoV::S(s.estado)),
        ("dias_solicitados"@, AtributoV::N(decimal(s.dias_solicitados as int))),
        ("created_at"@, AtributoV::S(s.created_at)),
        ("tipo"@, AtributoV::S("solicitud"@)),
    ]
}

/// The request a stored record holds: every attribute must be there with its
/// kind, and the day count must read as an `i32`.
pub open spec fn solicitud_de_item(v: ItemV) -> Option<SolicitudV> {
    if texto_en(v, "id"@) is Some && texto_en(v, "empleado_id"@) is Some
        && texto_en(v, "empleado_nombre"@) is Some && texto_en(v, "fecha_inicio"@) is Some
        && texto_en(v, "fecha_fin"@) is Some && texto_en(v, "estado"@) is Some
        && numero_en(v, "dias_solicitados"@) is Some
        && i32_de_texto(numero_en(v, "dias_solicitados"@)->0) is Some
        && texto_en(v, "created_at"@) is Some {
        Some(SolicitudV {
            id: texto_en(v, "id"@)->0,
            empleado_id: texto_en(v, "empleado_id"@)->0,
            empleado_nombre: texto_en(v, "empleado_nombre"@)->0,
            fecha_inicio: texto_en(v, "fecha_inicio"@)->0,
            fecha_fin: texto_en(v, "fecha_fin"@)->0,
            estado: texto_en(v, "estado"@)->0,
            dias_solicitados: i32_de_texto(numero_en(v, "dias_solicitados"@)->0)->0,
            created_at: texto_en(v, "created_at"@)->0,
        })
    } else {
        None
    }
}

/// The fields that a request record cannot do without.
pub open spec fn campo_requerido_solicitud(nombre: Seq<char>) -> bool {
    nombre == "id"@ || nombre == "empleado_id"@ || nombre == "empleado_nombre"@
        || nombre == "fecha_inicio"@ || nombre == "fecha_fin"@ || nombre == "estado"@
        || nombre == "dias_solicitados"@ || nombre == "created_at"@
}

/// A new request: pending, with the counted days, the given id and time stamp.
pub open spec fn solicitud_pendiente(
    datos: NuevaSolicitud,
    id: Seq<char>,
    creada: Seq<char>,
    dias: int,
) -> SolicitudV {
    SolicitudV {
        id: id,
        empleado_id: datos.empleado_id@,
        empleado_nombre: datos.empleado_nombre@,
        fecha_inicio: datos.fecha_inicio@,
        fecha_fin: datos.fecha_fin@,
        estado: "pendiente"@,
        dias_solicitados: dias as i32,
        created_at: creada,
    }
}

/// The request a record holds, with its status replaced.
pub open spec fn con_estado(s: SolicitudV, estado: Seq<char>) -> SolicitudV {
    SolicitudV { estado: estado, ..s }
}

/// The requests among `s` with the given status, in their order.
pub open spec fn con_estado_igual(s: Seq<SolicitudV>, estado: Seq<char>) -> Seq<SolicitudV>
    decreases s.len(),
{
    if s.len() == 0 {
        s
    } else if s.last().estado == estado {
        con_estado_igual(s.drop_last(), estado).push(s.last())
    } else {
        con_estado_igual(s.drop_last(), estado)
    }
}

/// How many requests among `s` have the given status.
pub open spec fn cuenta_estado(s: Seq<SolicitudV>, estado: Seq<char>) -> nat
    decreases s.len(),
{
    if s.len() == 0 {
        0
    } else {
        cuenta_estado(s.drop_last(), estado) + if s.last().estado == estado { 1nat } else { 0nat }
    }
}

/// The requests that a listing shows: all, or those with the status asked for.
pub open spec fn filtradas(s: Seq<SolicitudV>, estado: Option<Seq<char>>) -> Seq<SolicitudV> {
    match estado {
        Some(e) => con_estado_igual(s, e),
        None => s,
    }
}

/// Whether every record of a list reads as a request.
pub open spec fn todas_legibles(v: Seq<ItemV>) -> bool {
    forall|i: int| 0 <= i < v.len() ==> (#[trigger] solicitud_de_item(v[i])) is Some
}

/// The requests that a list of records holds, one for each record, in order.
pub open spec fn solicitudes_de(v: Seq<ItemV>) -> Seq<SolicitudV> {
    Seq::new(v.len(), |i: int| solicitud_de_item(v[i])->0)
}

pub open spec fn vista_items(items: Seq<Item>) -> Seq<ItemV> {
    items.map_values(|it: Item| vista(it@))
}

/// The query of a listing: the status to keep, if any.
#[derive(Debug)]
pub struct SolicitudesQuery {
    pub estado: Option<String>,
}

/// The query of the new-request form: the employee to preselect, if any.
#[derive(Debug)]
pub struct NuevaSolicitudQuery {
    pub empleado_id: Option<String>,
}

/// A listing of requests with the counts of each status among them.
pub struct ListadoSolicitudes {
    pub solicitudes: Vec<SolicitudVacaciones>,
    pub total: usize,
    pub pendientes: usize,
    pub aprobadas: usize,
    pub rechazadas: usize,
}

/// Relies on uuid's `Uuid::new_v4` and its hyphenated text form: a fresh
/// random identifier of 36 characters.
#[verifier::external_body]
fn nuevo_id() -> (r: String)
    ensures
        r@.len() == 36,
{
    uuid::Uuid::new_v4().to_string()
}

/// The shape every UTC time stamp in RFC 3339 has: at least a date, a time to
/// the second and the offset, ending in the zero offset `+00:00`.
pub open spec fn es_marca_utc(s: Seq<char>) -> bool {
    s.len() >= 25 && s.subrange(s.len() - 6, s.len() as int) == "+00:00"@
}

/// Relies on chrono's `Utc::now` and `DateTime::to_rfc3339`: the current
/// instant as RFC 3339 text, which for UTC ends in the offset `+00:00`.
#[verifier::external_body]
fn marca_de_tiempo() -> (r: String)
    ensures
        es_marca_utc(r@),
{
    chrono::Utc::now().to_rfc3339()
}

impl SolicitudVacaciones {
    /// A field-by-field copy.
    pub fn copia(&self) -> (r: SolicitudVacaciones)
        ensures
            r@ == self@,
    {
        SolicitudVacaciones {
            id: self.id.clone(),
            empleado_id: self.empleado_id.clone(),
            empleado_nombre: self.empleado_nombre.clone(),
            fecha_inicio: self.fecha_inicio.clone(),
            fecha_fin: self.fecha_fin.clone(),
            estado: self.estado.clone(),
            dias_solicitados: self.dias_solicitados,
            created_at: self.created_at.clone(),
        }
    }

    /// The stored form of this request.
    pub fn to_item(&self) -> (r: Item)
        ensures
            vista(r@) == item_de_solicitud(self@),
            nombres_unicos(vista(r@)),
    {
        let mut item: Vec<Campo> = Vec::new();
        item.push(campo_texto("PK", unir("EMPLEADO#", self.empleado_id.as_str())));
        item.push(campo_texto("SK", unir("SOLICITUD#", self.id.as_str())));
        item.push(campo_texto("id", self.id.clone()));
        item.push(campo_texto("empleado_id", self.empleado_id.clone()));
        item.push(campo_texto("empleado_nombre", self.empleado_nombre.clone()));
        item.push(campo_texto("fecha_inicio", self.fecha_inicio.clone()));
        item.push(campo_texto("fecha_fin", self.fecha_fin.clone()));
        item.push(campo_texto("estado", self.estado.clone()));
        item.push(
            Campo {
                nombre: String::from_str("dias_solicitados"),
                valor: Atributo::N(texto_i32(self.dias_solicitados)),
            },
        );
        item.push(campo_texto("created_at", self.created_at.clone()));
        item.push(campo_texto("tipo", String::from_str("solicitud")));
        assert(vista(item@) =~= item_de_solicitud(self@));
        proof {
            lemma_solicitud_nombres_unicos(self@);
        }
        item
    }

    /// Reads a request from its stored form; `None` when an attribute is
    /// missing, of the wrong kind, or the day count is not a number.
    pub fn from_item(item: &Item) -> (r: Option<SolicitudVacaciones>)
        ensures
            match r {
                Some(s) => solicitud_de_item(vista(item@)) == Some(s@),
                None => solicitud_de_item(vista(item@)) is None,
            },
    {
        let id = obtener_texto(item, "id")?;
        let empleado_id = obtener_texto(item, "empleado_id")?;
        let empleado_nombre = obtener_texto(item, "empleado_nombre")?;
        let fecha_inicio = obtener_texto(item, "fecha_inicio")?;
        let fecha_fin = obtener_texto(item, "fecha_fin")?;
        let estado = obtener_texto(item, "estado")?;
        let dias = obtener_numero(item, "dias_solicitados")?;
        let dias_solicitados = leer_i32(dias.as_str())?;
        let created_at = obtener_texto(item, "created_at")?;
        Some(SolicitudVacaciones {
            id,
            empleado_id,
            empleado_nombre,
            fecha_inicio,
            fecha_fin,
            estado,
            dias_solicitados,
            created_at,
        })
    }
}

/// Counts the business days, Monday to Friday, from `inicio` to `fin`, both
/// written `YYYY-MM-DD` and both included.
pub fn calcular_dias_entre_fechas(inicio: &str, fin: &str) -> (r: Result<i32, AppError>)
    ensures
        match dias_pedidos(inicio@, fin@) {
            Some(n) => r == Ok::<i32, AppError>(n as i32) && n <= i32::MAX,
            None => r matches Err(AppError::BadRequest(m)) && m@ == motivo_fechas(inicio@, fin@),
        },
{
    let fecha_inicio = match parse_fecha(inicio) {
        Some(f) => f,
        None => {
            return Err(
                AppError::BadRequest(
                    String::from_str("Formato de fecha_inicio inválido. Use YYYY-MM-DD"),
                ),
            );
        },
    };
    let fecha_fin = match parse_fecha(fin) {
        Some(f) => f,
        None => {
            return Err(
                AppError::BadRequest(String::from_str("Formato de fecha_fin inválido. Use YYYY-MM-DD")),
            );
        },
    };
    let a = numero_dia(&fecha_inicio);
    let b = numero_dia(&fecha_fin);
    if b < a {
        return Err(
            AppError::BadRequest(String::from_str("La fecha_fin debe ser posterior a fecha_inicio")),
        );
    }
    proof {
        lemma_numero_acotado(fecha_inicio);
        lemma_numero_acotado(fecha_fin);
    }
    Ok(contar_dias_habiles(a, b))
}

/// Makes a pending request from what the caller supplied, with the given
/// identifier and time stamp.
pub fn construir_solicitud(datos: NuevaSolicitud, id: String, created_at: String) -> (r: Result<
    SolicitudVacaciones,
    AppError,
>)
    ensures
        match dias_pedidos(datos.fecha_inicio@, datos.fecha_fin@) {
            Some(n) => r matches Ok(s) && s@ == solicitud_pendiente(datos, id@, created_at@, n),
            None => r matches Err(AppError::BadRequest(m)) && m@ == motivo_fechas(
                datos.fecha_inicio@,
                datos.fecha_fin@,
            ),
        },
{
    let dias = calcular_dias_entre_fechas(datos.fecha_inicio.as_str(), datos.fecha_fin.as_str())?;
    Ok(SolicitudVacaciones {
        id,
        empleado_id: datos.empleado_id,
        empleado_nombre: datos.empleado_nombre,
        fecha_inicio: datos.fecha_inicio,
        fecha_fin: datos.fecha_fin,
        estado: String::from_str("pendiente"),
        dias_solicitados: dias,
        created_at,
    })
}

/// Makes a pending request with a fresh identifier, stamped with the current
/// time.
pub fn crear_solicitud(datos: NuevaSolicitud) -> (r: Result<SolicitudVacaciones, AppError>)
    ensures
        match dias_pedidos(datos.fecha_inicio@, datos.fecha_fin@) {
            Some(n) => r matches Ok(s) && s.id@.len() == 36 && s@ == solicitud_pendiente(
                datos,
                s.id@,
                s.created_at@,
                n,
            ) && es_marca_utc(s.created_at@),
            None => r matches Err(AppError::BadRequest(m)) && m@ == motivo_fechas(
                datos.fecha_inicio@,
                datos.fecha_fin@,
            ),
        },
{
    let id = nuevo_id();
    let created_at = marca_de_tiempo();
    construir_solicitud(datos, id, created_at)
}

/// Reads every record of a list as a request; a record that does not read
/// as one makes the whole read fail.
pub fn solicitudes_de_items(items: &Vec<Item>) -> (r: Result<Vec<SolicitudVacaciones>, AppError>)
    ensures
        r is Ok <==> todas_legibles(vista_items(items@)),
        r matches Ok(x) ==> vista_solicitudes(x@) == solicitudes_de(vista_items(items@)),
        r is Err ==> (r matches Err(AppError::InternalError(m)) && m@ == registro_corrupto()),
{
    let ghost v = vista_items(items@);
    let mut r: Vec<SolicitudVacaciones> = Vec::new();
    let mut i: usize = 0;
    while i < items.len()
        invariant
            i <= items@.len(),
            v == vista_items(items@),
            r@.len() == i,
            forall|j: int| 0 <= j < i ==> (#[trigger] solicitud_de_item(v[j])) is Some,
            vista_solicitudes(r@) =~= solicitudes_de(v.subrange(0, i as int)),
        decreases items.len() - i,
    {
        assert(v[i as int] == vista(items@[i as int]@));
        let ghost antes = r@;
        match SolicitudVacaciones::from_item(&items[i]) {
            Some(s) => {
                r.push(s);
            },
            None => {
                assert(solicitud_de_item(v[i as int]) is None);
                return Err(AppError::InternalError(String::from_str("Error al parsear solicitud")));
            },
        }
        assert forall|j: int| 0 <= j < i + 1 implies #[trigger] vista_solicitudes(r@)[j] == solicitudes_de(
            v.subrange(0, i + 1),
        )[j] by {
            if j < i {
                assert(vista_solicitudes(r@)[j] == vista_solicitudes(r@.drop_last())[j]);
                assert(r@.drop_last() == antes);
            }
        }
        assert(vista_solicitudes(r@) =~= solicitudes_de(v.subrange(0, i + 1)));
        i = i + 1;
    }
    assert(v.subrange(0, v.len() as int) =~= v);
    Ok(r)
}

/// Lists the given requests, all or those with the status asked for, with
/// the counts of each status among those listed.
pub fn listar_solicitudes(solicitudes: &Vec<SolicitudVacaciones>, estado: Option<&str>) -> (r:
    ListadoSolicitudes)
    ensures
        vista_solicitudes(r.solicitudes@) == filtradas(
            vista_solicitudes(solicitudes@),
            match estado {
                Some(e) => Some(e@),
                None => None,
            },
        ),
        r.total == r.solicitudes@.len(),
        r.pendientes == cuenta_estado(vista_solicitudes(r.solicitudes@), "pendiente"@),
        r.aprobadas == cuenta_estado(vista_solicitudes(r.solicitudes@), "aprobada"@),
        r.rechazadas == cuenta_estado(vista_solicitudes(r.solicitudes@), "rechazada"@),
{
    let ghost v = vista_solicitudes(solicitudes@);
    let ghost filtro: Option<Seq<char>> = match estado {
        Some(e) => Some(e@),
        None => None,
    };
    let objetivo: Option<String> = match estado {
        Some(e) => Some(String::from_str(e)),
        None => None,
    };
    let pendiente = String::from_str("pendiente");
    let aprobada = String::from_str("aprobada");
    let rechazada = String::from_str("rechazada");
    let mut lista: Vec<SolicitudVacaciones> = Vec::new();
    let mut pendientes: usize = 0;
    let mut aprobadas: usize = 0;
    let mut rechazadas: usize = 0;
    let mut i: usize = 0;
    while i < solicitudes.len()
        invariant
            i <= solicitudes@.len(),
            v == vista_solicitudes(solicitudes@),
            pendiente@ == "pendiente"@,
            aprobada@ == "aprobada"@,
            rechazada@ == "rechazada"@,
            match objetivo {
                Some(o) => filtro == Some(o@),
                None => filtro is None,
            },
            lista@.len() <= i,
            vista_solicitudes(lista@) == filtradas(v.subrange(0, i as int), filtro),
            pendientes == cuenta_estado(vista_solicitudes(lista@), "pendiente"@),
            aprobadas == cuenta_estado(vista_solicitudes(lista@), "aprobada"@),
            rechazadas == cuenta_estado(vista_solicitudes(lista@), "rechazada"@),
            pendientes <= lista@.len(),
            aprobadas <= lista@.len(),
            rechazadas <= lista@.len(),
        decreases solicitudes.len() - i,
    {
        let s = &solicitudes[i];
        let ghost antes = vista_solicitudes(lista@);
        assert(v.subrange(0, i + 1).drop_last() =~= v.subrange(0, i as int));
        assert(v.subrange(0, i + 1).last() == s@);
        let entra = match &objetivo {
            Some(o) => s.estado == *o,
            None => true,
        };
        if entra {
            lista.push(s.copia());
            assert(vista_solicitudes(lista@).drop_last() =~= antes);
            if s.estado == pendiente {
                pendientes = pendientes + 1;
            }
            if s.estado == aprobada {
                aprobadas = aprobadas + 1;
            }
            if s.estado == rechazada {
                rechazadas = rechazadas + 1;
            }
        }
        assert(vista_solicitudes(lista@) =~= filtradas(v.subrange(0, i + 1), filtro));
        i = i + 1;
    }
    assert(v.subrange(0, v.len() as int) =~= v);
    let total = lista.len();
    ListadoSolicitudes { solicitudes: lista, total, pendientes, aprobadas, rechazadas }
}

/// The request and the stored record after a status change: `None` when no
/// record was found or it does not read as a request.
pub open spec fn solicitud_actualizada(v: Option<ItemV>, estado: Seq<char>) -> Option<SolicitudV> {
    match v {
        Some(item) => match solicitud_de_item(item) {
            Some(s) => Some(con_estado(s, estado)),
            None => None,
        },
        None => None,
    }
}

/// The key under which a request is sorted within its employee's partition.
pub fn clave_de_solicitud(solicitud_id: &str) -> (r: String)
    ensures
        r@ == "SOLICITUD#"@ + solicitud_id@,
{
    unir("SOLICITUD#", solicitud_id)
}

/// Checks that a status is one of `pendiente`, `aprobada`, `rechazada`.
pub fn validar_estado(estado: &str) -> (r: Result<(), AppError>)
    ensures
        r is Ok <==> es_estado_valido(estado@),
        r is Err ==> r matches Err(AppError::BadRequest(_)),
{
    let e = String::from_str(estado);
    if e == String::from_str("pendiente") || e == String::from_str("aprobada") || e
        == String::from_str("rechazada") {
        Ok(())
    } else {
        Err(AppError::BadRequest(unir("Estado inválido: ", estado)))
    }
}

/// Replaces the status of the request held by a stored record (`None` when
/// nothing is stored under its key). The status is checked first.
pub fn actualizar_estado(registro: Option<&Item>, nuevo_estado: &str) -> (r: Result<
    SolicitudVacaciones,
    AppError,
>)
    ensures
        !es_estado_valido(nuevo_estado@) ==> r matches Err(AppError::BadRequest(_)),
        es_estado_valido(nuevo_estado@) && registro is None ==> r matches Err(
            AppError::NotFound(_),
        ),
        es_estado_valido(nuevo_estado@) && registro is Some ==> match solicitud_de_item(
            vista(registro->0@),
        ) {
            Some(s) => r matches Ok(x) && x@ == con_estado(s, nuevo_estado@),
            None => r matches Err(AppError::InternalError(_)),
        },
{
    validar_estado(nuevo_estado)?;
    let item = match registro {
        Some(it) => it,
        None => {
            return Err(AppError::NotFound(String::from_str("Solicitud no encontrada")));
        },
    };
    let mut solicitud = match SolicitudVacaciones::from_item(item) {
        Some(s) => s,
        None => {
            return Err(AppError::InternalError(String::from_str("Error al parsear solicitud")));
        },
    };
    solicitud.estado = String::from_str(nuevo_estado);
    Ok(solicitud)
}

/// Changing a request's status to the one it already has, after storing it,
/// gives the same request: a second approval leaves it approved.
pub proof fn lemma_estado_idempotente(v: ItemV, estado: Seq<char>)
    requires
        solicitud_actualizada(Some(v), estado) is Some,
    ensures
        solicitud_actualizada(
            Some(item_de_solicitud(solicitud_actualizada(Some(v), estado)->0)),
            estado,
        ) == solicitud_actualizada(Some(v), estado),
        solicitud_actualizada(Some(v), estado)->0.estado == estado,
{
    let s = solicitud_actualizada(Some(v), estado)->0;
    lemma_solicitud_ida_y_vuelta(s);
    assert(con_estado(s, estado) == s);
}

/// A listing by status holds only requests with that status, and its counts
/// are those of what it holds: all of them for that status, none for another.
pub proof fn lemma_listado_por_estado(s: Seq<SolicitudV>, estado: Seq<char>, otro: Seq<char>)
    requires
        otro != estado,
    ensures
        forall|i: int|
            0 <= i < con_estado_igual(s, estado).len() ==> (#[trigger] con_estado_igual(
                s,
                estado,
            )[i]).estado == estado,
        cuenta_estado(con_estado_igual(s, estado), estado) == con_estado_igual(s, estado).len(),
        cuenta_estado(con_estado_igual(s, estado), otro) == 0,
    decreases s.len(),
{
    if s.len() > 0 {
        lemma_listado_por_estado(s.drop_last(), estado, otro);
        let f = con_estado_igual(s, estado);
        if s.last().estado == estado {
            assert(f.drop_last() =~= con_estado_igual(s.drop_last(), estado));
        }
    }
}

/// Storing a request and reading the record back gives the same request.
pub proof fn lemma_solicitud_ida_y_vuelta(s: SolicitudV)
    ensures
        solicitud_de_item(item_de_solicitud(s)) == Some(s),
{
    reveal_strlit("PK");
    reveal_strlit("SK");
    reveal_strlit("id");
    reveal_strlit("empleado_id");
    reveal_strlit("empleado_nombre");
    reveal_strlit("fecha_inicio");
    reveal_strlit("fecha_fin");
    reveal_strlit("estado");
    reveal_strlit("dias_solicitados");
    reveal_strlit("created_at");
    reveal_strlit("tipo");
    let v = item_de_solicitud(s);
    assert(v[0].0[0] == 'P' && v[1].0[0] == 'S' && v[2].0[0] == 'i' && v[3].0[0] == 'e');
    assert(v[4].0[0] == 'e' && v[5].0[0] == 'f' && v[6].0[0] == 'f' && v[7].0[0] == 'e');
    assert(v[8].0[0] == 'd' && v[9].0[0] == 'c' && v[10].0[0] == 't');
    assert(v[3].0[9] == 'i' && v[4].0[9] == 'n' && v[5].0[6] == 'i' && v[6].0[6] == 'f');
    assert(v[3].0[1] == 'm' && v[4].0[1] == 'm' && v[7].0[1] == 's');
    lemma_buscar_en(v, "id"@, 2);
    lemma_buscar_en(v, "empleado_id"@, 3);
    lemma_buscar_en(v, "empleado_nombre"@, 4);
    lemma_buscar_en(v, "fecha_inicio"@, 5);
    lemma_buscar_en(v, "fecha_fin"@, 6);
    lemma_buscar_en(v, "estado"@, 7);
    lemma_buscar_en(v, "dias_solicitados"@, 8);
    lemma_buscar_en(v, "created_at"@, 9);
    lemma_decimal_se_lee(s.dias_solicitados as int);
}

/// The fields of a request's stored form have distinct names.
pub proof fn lemma_solicitud_nombres_unicos(s: SolicitudV)
    ensures
        nombres_unicos(item_de_solicitud(s)),
{
    reveal_strlit("PK");
    reveal_strlit("SK");
    reveal_strlit("id");
    reveal_strlit("empleado_id");
    reveal_strlit("empleado_nombre");
    reveal_strlit("fecha_inicio");
    reveal_strlit("fecha_fin");
    reveal_strlit("estado");
    reveal_strlit("dias_solicitados");
    reveal_strlit("created_at");
    reveal_strlit("tipo");
    let v = item_de_solicitud(s);
    assert(v[0].0[0] == 'P' && v[1].0[0] == 'S' && v[2].0[0] == 'i' && v[3].0[0] == 'e');
    assert(v[4].0[0] == 'e' && v[5].0[0] == 'f' && v[6].0[0] == 'f' && v[7].0[0] == 'e');
    assert(v[8].0[0] == 'd' && v[9].0[0] == 'c' && v[10].0[0] == 't');
    assert(v[3].0[9] == 'i' && v[4].0[9] == 'n' && v[5].0[6] == 'i' && v[6].0[6] == 'f');
    assert(v[3].0[1] == 'm' && v[4].0[1] == 'm' && v[7].0[1] == 's');
    assert forall|i: int, j: int| 0 <= i < j < v.len() implies #[trigger] v[i].0 != #[trigger] v[j].0 by {
        if i == 3 && j == 4 {
            assert(v[i].0[9] != v[j].0[9]);
        } else if i == 5 && j == 6 {
            assert(v[i].0[6] != v[j].0[6]);
        } else if (i == 3 || i == 4) && j == 7 {
            assert(v[i].0[1] != v[j].0[1]);
        } else {
            assert(v[i].0[0] != v[j].0[0]);
        }
    }
}

/// A record that lacks a field a request cannot do without does not read as
/// a request.
pub proof fn lemma_solicitud_sin_campo(v: ItemV, nombre: Seq<char>)
    requires
        campo_requerido_solicitud(nombre),
        crate::registro::buscar(v, nombre) is None,
    ensures
        solicitud_de_item(v) is None,
{
}

} // verus!
