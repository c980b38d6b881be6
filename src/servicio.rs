use vstd::prelude::*;
use crate::empleado::{
    antiguedad_de, dias_de_ley, dias_disponibles, dias_por_ley, dias_restantes, empleado_de_item,
    Empleado, EmpleadoV,
};
use crate::error::AppError;
use crate::fecha::{fecha_leida, parse_fecha, Fecha};
use crate::registro::{vista, Item, ItemV};
use crate::solicitud::{
    registro_corrupto, solicitudes_de, solicitudes_de_items, todas_legibles, vista_items,
    vista_solicitudes, SolicitudV, SolicitudVacaciones,
};

verus! {

/// Whether a request counts as consumed in a year: approved, and its start
/// date falls in that year.
pub open spec fn consumida_en(s: SolicitudV, anio: int) -> bool {
    s.estado == "aprobada"@ && match fecha_leida(s.fecha_inicio) {
        Some(f) => f.anio == anio,
        None => false,
    }
}

/// The days consumed in a year: the sum of the day counts of the requests
/// that count as consumed in it.
pub open spec fn suma_tomados(s: Seq<SolicitudV>, anio: int) -> int
    decreases s.len(),
{
    if s.len() == 0 {
        0
    } else {
        suma_tomados(s.drop_last(), anio) + if consumida_en(s.last(), anio) {
            s.last().dias_solicitados as int
        } else {
            0
        }
    }
}

pub open spec fn cabe_en_i32(x: int) -> bool {
    i32::MIN <= x <= i32::MAX
}

/// An employee with the derived fields filled in for a day, given the days
/// consumed.
pub open spec fn con_calculos(e: EmpleadoV, tomados: int, hoy: Fecha) -> EmpleadoV {
    let ant = antiguedad_de(e.fecha_ingreso, hoy);
    EmpleadoV {
        dias_tomados: Some(tomados as i32),
        antiguedad_anos: Some(ant as i32),
        dias_disponibles: Some(dias_restantes(dias_de_ley(ant), tomados) as i32),
        ..e
    }
}

/// Whether the derived numbers of an employee are representable: the consumed
/// days, and allotment minus consumed days, fit in an `i32`.
pub open spec fn calculos_representables(e: EmpleadoV, tomados: int, hoy: Fecha) -> bool {
    cabe_en_i32(tomados) && dias_de_ley(antiguedad_de(e.fecha_ingreso, hoy)) - tomados
        <= i32::MAX
}

/// Sums the days of the approved requests whose start date falls in the
/// given year;
/// `None` when the sum does not fit in an `i32`.
pub fn calcular_dias_tomados(solicitudes: &Vec<SolicitudVacaciones>, anio: i32) -> (r: Option<
    i32,
>)
    ensures
        cabe_en_i32(suma_tomados(vista_solicitudes(solicitudes@), anio as int)) ==> r == Some(
            suma_tomados(vista_solicitudes(solicitudes@), anio as int) as i32,
        ),
        !cabe_en_i32(suma_tomados(vista_solicitudes(solicitudes@), anio as int)) ==> r is None,
{
    let ghost v = vista_solicitudes(solicitudes@);
    let aprobada = String::from_str("aprobada");
    let mut suma: i128 = 0;
    let mut i: usize = 0;
    while i < solicitudes.len()
        invariant
            i <= solicitudes@.len(),
            v == vista_solicitudes(solicitudes@),
            aprobada@ == "aprobada"@,
            suma as int == suma_tomados(v.subrange(0, i as int), anio as int),
            -(i as int) * 0x8000_0000 <= suma <= (i as int) * 0x8000_0000,
        decreases solicitudes.len() - i,
    {
        let s = &solicitudes[i];
        assert(v.subrange(0, i + 1).drop_last() =~= v.subrange(0, i as int));
        assert(v.subrange(0, i + 1).last() == s@);
        if s.estado == aprobada {
            match parse_fecha(s.fecha_inicio.as_str()) {
                Some(f) => {
                    if f.anio == anio {
                        suma = suma + s.dias_solicitados as i128;
                    }
                },
                None => {},
            }
        }
        i = i + 1;
    }
    assert(v.subrange(0, v.len() as int) =~= v);
    if suma >= i32::MIN as i128 && suma <= i32::MAX as i128 {
        Some(suma as i32)
    } else {
        None
    }
}

/// Fills in an employee's tenure, consumed days and available days for the
/// given day, from the employee's requests.
pub fn enriquecer(e: Empleado, solicitudes: &Vec<SolicitudVacaciones>, hoy: &Fecha) -> (r: Result<
    Empleado,
    AppError,
>)
    requires
        hoy.valida(),
    ensures
        ({
            let t = suma_tomados(vista_solicitudes(solicitudes@), hoy.anio as int);
            if calculos_representables(e@, t, *hoy) {
                r matches Ok(x) && x@ == con_calculos(e@, t, *hoy)
            } else {
                r matches Err(AppError::InternalError(_))
            }
        }),
{
    let tomados = match calcular_dias_tomados(solicitudes, hoy.anio) {
        Some(t) => t,
        None => {
            return Err(AppError::InternalError(String::from_str("Días tomados fuera de rango")));
        },
    };
    let antiguedad = e.calcular_antiguedad(hoy);
    let por_ley = dias_por_ley(antiguedad);
    if por_ley as i64 - tomados as i64 > i32::MAX as i64 {
        return Err(AppError::InternalError(String::from_str("Días disponibles fuera de rango")));
    }
    let disponibles = dias_disponibles(por_ley, tomados);
    let mut x = e;
    x.dias_tomados = Some(tomados);
    x.dias_disponibles = Some(disponibles);
    x.antiguedad_anos = Some(antiguedad);
    Ok(x)
}

/// Whether every record of a list reads as an employee.
pub open spec fn todos_legibles(v: Seq<ItemV>) -> bool {
    forall|i: int| 0 <= i < v.len() ==> (#[trigger] empleado_de_item(v[i])) is Some
}

/// The employees that a list of records holds, one for each record, in order.
pub open spec fn empleados_de(v: Seq<ItemV>) -> Seq<EmpleadoV> {
    Seq::new(v.len(), |i: int| empleado_de_item(v[i])->0)
}

/// The reason given when an employee's stored record does not read as one.
pub open spec fn empleado_corrupto() -> Seq<char> {
    "Error al parsear empleado"@
}

pub open spec fn vista_empleados(s: Seq<Empleado>) -> Seq<EmpleadoV> {
    s.map_values(|e: Empleado| e@)
}

/// Reads every record of a list as an employee; a record that does not read
/// as one makes the whole read fail.
pub fn empleados_de_items(items: &Vec<Item>) -> (r: Result<Vec<Empleado>, AppError>)
    ensures
        r is Ok <==> todos_legibles(vista_items(items@)),
        r matches Ok(x) ==> vista_empleados(x@) == empleados_de(vista_items(items@)),
        r is Err ==> (r matches Err(AppError::InternalError(m)) && m@ == empleado_corrupto()),
{
    let ghost v = vista_items(items@);
    let mut r: Vec<Empleado> = Vec::new();
    let mut i: usize = 0;
    while i < items.len()
        invariant
            i <= items@.len(),
            v == vista_items(items@),
            r@.len() == i,
            forall|j: int| 0 <= j < i ==> (#[trigger] empleado_de_item(v[j])) is Some,
            vista_empleados(r@) =~= empleados_de(v.subrange(0, i as int)),
        decreases items.len() - i,
    {
        assert(v[i as int] == vista(items@[i as int]@));
        let ghost antes = r@;
        match Empleado::from_item(&items[i]) {
            Some(e) => {
                r.push(e);
            },
            None => {
                assert(empleado_de_item(v[i as int]) is None);
                return Err(AppError::InternalError(String::from_str("Error al parsear empleado")));
            },
        }
        assert forall|j: int| 0 <= j < i + 1 implies #[trigger] vista_empleados(r@)[j] == empleados_de(
            v.subrange(0, i + 1),
        )[j] by {
            if j < i {
                assert(vista_empleados(r@)[j] == vista_empleados(r@.drop_last())[j]);
                assert(r@.drop_last() == antes);
            }
        }
        assert(vista_empleados(r@) =~= empleados_de(v.subrange(0, i + 1)));
        i = i + 1;
    }
    assert(v.subrange(0, v.len() as int) =~= v);
    Ok(r)
}

/// An employee with derived fields, from the employee's stored record (`None`
/// when nothing is stored under its key) and the records of its requests.
pub fn obtener_empleado_con_dias(
    registro: Option<&Item>,
    solicitudes: &Vec<Item>,
    hoy: &Fecha,
) -> (r: Result<Empleado, AppError>)
    requires
        hoy.valida(),
    ensures
        registro is None ==> r matches Err(AppError::NotFound(_)),
        registro is Some ==> match empleado_de_item(vista(registro->0@)) {
            None => r matches Err(AppError::InternalError(m)) && m@ == empleado_corrupto(),
            Some(e) => if !todas_legibles(vista_items(solicitudes@)) {
                r matches Err(AppError::InternalError(m)) && m@ == registro_corrupto()
            } else {
                let t = suma_tomados(solicitudes_de(vista_items(solicitudes@)), hoy.anio as int);
                if calculos_representables(e, t, *hoy) {
                    r matches Ok(x) && x@ == con_calculos(e, t, *hoy)
                } else {
                    r matches Err(AppError::InternalError(_))
                }
            },
        },
{
    let item = match registro {
        Some(it) => it,
        None => {
            return Err(AppError::NotFound(String::from_str("Empleado no encontrado")));
        },
    };
    let empleado = match Empleado::from_item(item) {
        Some(e) => e,
        None => {
            return Err(AppError::InternalError(String::from_str("Error al parsear empleado")));
        },
    };
    let leidas = match solicitudes_de_items(solicitudes) {
        Ok(l) => l,
        Err(e) => {
            return Err(e);
        },
    };
    enriquecer(empleado, &leidas, hoy)
}

} // verus!
