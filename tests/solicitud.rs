use vacaciones::error::AppError;
use vacaciones::registro::Item;
use vacaciones::solicitud::{
    actualizar_estado, calcular_dias_entre_fechas, construir_solicitud, crear_solicitud,
    listar_solicitudes, solicitudes_de_items, validar_estado, NuevaSolicitud, SolicitudVacaciones,
};

fn nueva(inicio: &str, fin: &str) -> NuevaSolicitud {
    NuevaSolicitud {
        empleado_id: "e1".to_string(),
        empleado_nombre: "Luis".to_string(),
        fecha_inicio: inicio.to_string(),
        fecha_fin: fin.to_string(),
    }
}

fn con_estado(id: &str, estado: &str) -> SolicitudVacaciones {
    SolicitudVacaciones {
        id: id.to_string(),
        empleado_id: "e1".to_string(),
        empleado_nombre: "Luis".to_string(),
        fecha_inicio: "2024-03-04".to_string(),
        fecha_fin: "2024-03-05".to_string(),
        estado: estado.to_string(),
        dias_solicitados: 2,
        created_at: "2024-03-01T10:00:00+00:00".to_string(),
    }
}

#[test]
fn semana_completa_cuenta_cinco_dias_habiles() {
    let s = crear_solicitud(nueva("2024-01-01", "2024-01-07")).unwrap();
    assert_eq!(s.dias_solicitados, 5);
    assert_eq!(s.estado, "pendiente");
    assert_eq!(s.id.len(), 36);
    assert_eq!(s.empleado_id, "e1");
    assert_eq!(s.empleado_nombre, "Luis");
    assert!(!s.created_at.is_empty());
}

#[test]
fn dias_habiles_en_varios_intervalos() {
    assert_eq!(calcular_dias_entre_fechas("2024-01-01", "2024-01-01").unwrap(), 1);
    assert_eq!(calcular_dias_entre_fechas("2024-01-06", "2024-01-07").unwrap(), 0);
    assert_eq!(calcular_dias_entre_fechas("2024-01-05", "2024-01-08").unwrap(), 2);
    assert_eq!(calcular_dias_entre_fechas("2024-02-26", "2024-03-01").unwrap(), 5);
    assert_eq!(calcular_dias_entre_fechas("2024-01-01", "2024-12-31").unwrap(), 262);
    assert_eq!(calcular_dias_entre_fechas("1999-12-31", "2000-01-03").unwrap(), 2);
}

#[test]
fn fin_antes_del_inicio_es_error() {
    let r = crear_solicitud(nueva("2024-01-10", "2024-01-09"));
    assert!(matches!(r, Err(AppError::BadRequest(_))));
    let r = calcular_dias_entre_fechas("2024-01-10", "2023-12-31");
    assert!(matches!(r, Err(AppError::BadRequest(_))));
}

#[test]
fn fecha_mal_escrita_es_error() {
    assert!(matches!(calcular_dias_entre_fechas("2024/01/01", "2024-01-07"), Err(AppError::BadRequest(_))));
    assert!(matches!(calcular_dias_entre_fechas("2024-01-01", "mañana"), Err(AppError::BadRequest(_))));
    assert!(matches!(calcular_dias_entre_fechas("2024-02-30", "2024-03-07"), Err(AppError::BadRequest(_))));
}

#[test]
fn construir_solicitud_usa_id_y_marca() {
    let s = construir_solicitud(nueva("2024-01-08", "2024-01-12"), "abc".to_string(), "t0".to_string())
        .unwrap();
    assert_eq!(s.id, "abc");
    assert_eq!(s.created_at, "t0");
    assert_eq!(s.dias_solicitados, 5);
    assert_eq!(s.estado, "pendiente");
    assert_eq!(s.fecha_inicio, "2024-01-08");
    assert_eq!(s.fecha_fin, "2024-01-12");
}

#[test]
fn estado_desconocido_es_error() {
    let item = con_estado("s1", "pendiente").to_item();
    assert!(matches!(actualizar_estado(Some(&item), "cancelada"), Err(AppError::BadRequest(_))));
    assert!(matches!(actualizar_estado(None, "cancelada"), Err(AppError::BadRequest(_))));
    assert!(matches!(validar_estado("APROBADA"), Err(AppError::BadRequest(_))));
    assert!(validar_estado("aprobada").is_ok());
    assert!(validar_estado("pendiente").is_ok());
    assert!(validar_estado("rechazada").is_ok());
}

#[test]
fn aprobar_dos_veces() {
    let item = con_estado("s1", "pendiente").to_item();
    let primera = actualizar_estado(Some(&item), "aprobada").unwrap();
    assert_eq!(primera.estado, "aprobada");
    let guardada = primera.to_item();
    let segunda = actualizar_estado(Some(&guardada), "aprobada").unwrap();
    assert_eq!(segunda.estado, "aprobada");
    assert_eq!(segunda.id, primera.id);
    assert_eq!(segunda.dias_solicitados, primera.dias_solicitados);
}

#[test]
fn actualizar_sin_registro_o_corrupto() {
    assert!(matches!(actualizar_estado(None, "rechazada"), Err(AppError::NotFound(_))));
    let corrupto: Item = Vec::new();
    assert!(matches!(actualizar_estado(Some(&corrupto), "rechazada"), Err(AppError::InternalError(_))));
}

#[test]
fn listado_filtrado_por_pendientes() {
    let todas = vec![
        con_estado("a", "pendiente"),
        con_estado("b", "aprobada"),
        con_estado("c", "pendiente"),
        con_estado("d", "rechazada"),
        con_estado("e", "aprobada"),
    ];
    let l = listar_solicitudes(&todas, Some("pendiente"));
    assert_eq!(l.solicitudes.len(), 2);
    assert!(l.solicitudes.iter().all(|s| s.estado == "pendiente"));
    assert_eq!(l.solicitudes[0].id, "a");
    assert_eq!(l.solicitudes[1].id, "c");
    assert_eq!(l.total, 2);
    assert_eq!(l.pendientes, 2);
    assert_eq!(l.aprobadas, 0);
    assert_eq!(l.rechazadas, 0);

    let l = listar_solicitudes(&todas, None);
    assert_eq!(l.total, 5);
    assert_eq!(l.pendientes, 2);
    assert_eq!(l.aprobadas, 2);
    assert_eq!(l.rechazadas, 1);

    let l = listar_solicitudes(&todas, Some("otra"));
    assert_eq!(l.total, 0);
    assert_eq!(l.pendientes + l.aprobadas + l.rechazadas, 0);
}

#[test]
fn lectura_de_registros_con_uno_corrupto_falla() {
    let items: Vec<Item> = vec![
        con_estado("a", "pendiente").to_item(),
        Vec::new(),
        con_estado("b", "aprobada").to_item(),
    ];
    assert!(matches!(solicitudes_de_items(&items), Err(AppError::InternalError(_))));
    let items: Vec<Item> =
        vec![con_estado("a", "pendiente").to_item(), con_estado("b", "aprobada").to_item()];
    let leidas = solicitudes_de_items(&items).unwrap();
    assert_eq!(leidas.len(), 2);
    assert_eq!(leidas[0].id, "a");
    assert_eq!(leidas[1].id, "b");
    assert!(solicitudes_de_items(&Vec::new()).unwrap().is_empty());
}

#[test]
fn motivos_de_rechazo_de_fechas() {
    match calcular_dias_entre_fechas("01/01/2024", "2024-01-02") {
        Err(AppError::BadRequest(m)) => assert_eq!(m, "Formato de fecha_inicio inválido. Use YYYY-MM-DD"),
        otro => panic!("{:?}", otro),
    }
    match calcular_dias_entre_fechas("2024-01-01", "2024-13-01") {
        Err(AppError::BadRequest(m)) => assert_eq!(m, "Formato de fecha_fin inválido. Use YYYY-MM-DD"),
        otro => panic!("{:?}", otro),
    }
    match calcular_dias_entre_fechas("2024-01-02", "2024-01-01") {
        Err(AppError::BadRequest(m)) => assert_eq!(m, "La fecha_fin debe ser posterior a fecha_inicio"),
        otro => panic!("{:?}", otro),
    }
}

#[test]
fn marca_de_tiempo_en_utc() {
    let s = crear_solicitud(nueva("2024-01-01", "2024-01-02")).unwrap();
    assert!(s.created_at.ends_with("+00:00"));
    assert!(s.created_at.len() >= 25);
    assert_eq!(&s.created_at[10..11], "T");
}
