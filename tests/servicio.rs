use vacaciones::empleado::Empleado;
use vacaciones::error::AppError;
use vacaciones::fecha::Fecha;
use vacaciones::registro::Item;
use vacaciones::servicio::{
    calcular_dias_tomados, empleados_de_items, enriquecer, obtener_empleado_con_dias,
};
use vacaciones::solicitud::SolicitudVacaciones;

fn empleado() -> Empleado {
    Empleado {
        id: "e1".to_string(),
        nombre: "Luis".to_string(),
        departamento: "IT".to_string(),
        email: "luis@example.com".to_string(),
        es_admin: false,
        fecha_ingreso: "2018-05-10".to_string(),
        password_hash: None,
        dias_disponibles: None,
        dias_tomados: None,
        antiguedad_anos: None,
    }
}

fn solicitud(id: &str, inicio: &str, estado: &str, dias: i32) -> SolicitudVacaciones {
    SolicitudVacaciones {
        id: id.to_string(),
        empleado_id: "e1".to_string(),
        empleado_nombre: "Luis".to_string(),
        fecha_inicio: inicio.to_string(),
        fecha_fin: inicio.to_string(),
        estado: estado.to_string(),
        dias_solicitados: dias,
        created_at: "2025-01-01T00:00:00+00:00".to_string(),
    }
}

#[test]
fn dias_tomados_solo_aprobadas_del_anio() {
    let s = vec![
        solicitud("a", "2025-02-03", "aprobada", 3),
        solicitud("b", "2025-04-07", "pendiente", 4),
        solicitud("c", "2024-12-30", "aprobada", 2),
        solicitud("d", "2025-11-03", "aprobada", 5),
        solicitud("e", "2025-06-02", "rechazada", 1),
    ];
    assert_eq!(calcular_dias_tomados(&s, 2025), Some(8));
    assert_eq!(calcular_dias_tomados(&s, 2024), Some(2));
    assert_eq!(calcular_dias_tomados(&s, 2023), Some(0));
    assert_eq!(calcular_dias_tomados(&Vec::new(), 2025), Some(0));
}

#[test]
fn dias_tomados_fuera_de_rango() {
    let s = vec![
        solicitud("a", "2025-02-03", "aprobada", i32::MAX),
        solicitud("b", "2025-02-04", "aprobada", 1),
    ];
    assert_eq!(calcular_dias_tomados(&s, 2025), None);
    let s = vec![
        solicitud("a", "2025-02-03", "aprobada", i32::MAX),
        solicitud("b", "2025-02-04", "aprobada", 1),
        solicitud("c", "2025-02-05", "aprobada", -1),
    ];
    assert_eq!(calcular_dias_tomados(&s, 2025), Some(i32::MAX));
}

#[test]
fn empleado_con_dias_calculados() {
    let hoy = Fecha { anio: 2025, mes: 6, dia: 1 };
    let registro = empleado().to_item();
    let solicitudes: Vec<Item> = vec![
        solicitud("a", "2025-02-03", "aprobada", 3).to_item(),
        solicitud("b", "2025-03-03", "aprobada", 4).to_item(),
        solicitud("c", "2025-04-07", "pendiente", 5).to_item(),
    ];
    let e = obtener_empleado_con_dias(Some(&registro), &solicitudes, &hoy).unwrap();
    assert_eq!(e.antiguedad_anos, Some(7));
    assert_eq!(e.dias_tomados, Some(7));
    assert_eq!(e.dias_disponibles, Some(20 - 7));
    assert_eq!(e.id, "e1");
}

#[test]
fn empleado_inexistente_o_corrupto() {
    let hoy = Fecha { anio: 2025, mes: 6, dia: 1 };
    let r = obtener_empleado_con_dias(None, &Vec::new(), &hoy);
    assert!(matches!(r, Err(AppError::NotFound(_))));
    let corrupto: Item = Vec::new();
    let r = obtener_empleado_con_dias(Some(&corrupto), &Vec::new(), &hoy);
    assert!(matches!(r, Err(AppError::InternalError(_))));
}

#[test]
fn disponibles_no_bajan_de_cero() {
    let hoy = Fecha { anio: 2025, mes: 6, dia: 1 };
    let s = vec![solicitud("a", "2025-02-03", "aprobada", 40)];
    let e = enriquecer(empleado(), &s, &hoy).unwrap();
    assert_eq!(e.dias_tomados, Some(40));
    assert_eq!(e.dias_disponibles, Some(0));
}

#[test]
fn lectura_de_empleados_con_uno_corrupto_falla() {
    let items: Vec<Item> = vec![Vec::new(), empleado().to_item()];
    assert!(matches!(empleados_de_items(&items), Err(AppError::InternalError(_))));
    let items: Vec<Item> = vec![empleado().to_item()];
    let leidos = empleados_de_items(&items).unwrap();
    assert_eq!(leidos.len(), 1);
    assert_eq!(leidos[0].id, "e1");
    assert_eq!(vacaciones::solicitud::clave_de_solicitud("s3"), "SOLICITUD#s3");
}

#[test]
fn solicitud_corrupta_no_se_pierde() {
    let hoy = Fecha { anio: 2025, mes: 6, dia: 1 };
    let registro = empleado().to_item();
    let solicitudes: Vec<Item> =
        vec![solicitud("a", "2025-02-03", "aprobada", 3).to_item(), Vec::new()];
    let r = obtener_empleado_con_dias(Some(&registro), &solicitudes, &hoy);
    assert!(matches!(r, Err(AppError::InternalError(_))));
}

#[test]
fn dias_tomados_por_anio_de_la_fecha() {
    let s = vec![
        solicitud("a", "+2025-03-03", "aprobada", 2),
        solicitud("b", "2025-03-10", "aprobada", 1),
        solicitud("c", "2025x", "aprobada", 7),
    ];
    assert_eq!(calcular_dias_tomados(&s, 2025), Some(3));
}
