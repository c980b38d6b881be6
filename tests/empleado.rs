use chrono::Datelike;
use vacaciones::empleado::{dias_disponibles, dias_por_ley, Empleado};
use vacaciones::fecha::{calcular_anios, parse_fecha, Fecha};

fn hoy() -> Fecha {
    let d = chrono::Utc::now().date_naive();
    Fecha { anio: d.year(), mes: d.month(), dia: d.day() }
}

fn empleado_base() -> Empleado {
    Empleado {
        id: "1".to_string(),
        nombre: "Test".to_string(),
        departamento: "IT".to_string(),
        email: "test@test.com".to_string(),
        es_admin: false,
        fecha_ingreso: "2024-01-01".to_string(),
        password_hash: None,
        dias_disponibles: None,
        dias_tomados: None,
        antiguedad_anos: None,
    }
}

#[test]
fn test_calcular_dias_por_ley() {
    let hoy = hoy();
    // Empleado con 1 año
    let emp1 = Empleado {
        id: "1".to_string(),
        nombre: "Test".to_string(),
        departamento: "IT".to_string(),
        email: "test@test.com".to_string(),
        es_admin: false,
        fecha_ingreso: "2024-01-01".to_string(),
        password_hash: None,
        dias_disponibles: None,
        dias_tomados: None,
        antiguedad_anos: None,
    };
    assert_eq!(emp1.calcular_dias_por_ley(&hoy), 14);

    // Empleado con 3 años
    let emp3 = Empleado {
        fecha_ingreso: "2022-01-01".to_string(),
        ..emp1.clone()
    };
    assert_eq!(emp3.calcular_dias_por_ley(&hoy), 18);

    // Empleado con 10 años (5to año base + 5 años extra / 5 = 1 incremento)
    let emp10 = Empleado {
        fecha_ingreso: "2015-01-01".to_string(),
        ..emp1.clone()
    };
    assert_eq!(emp10.calcular_dias_por_ley(&hoy), 22); // 20 + 2
}

#[test]
fn tabla_de_dias_por_ley() {
    let esperados = [0, 12, 14, 16, 18, 20];
    for (anos, dias) in esperados.iter().enumerate() {
        assert_eq!(dias_por_ley(anos as i32), *dias);
    }
    assert_eq!(dias_por_ley(6), 20);
    assert_eq!(dias_por_ley(9), 20);
    assert_eq!(dias_por_ley(10), 22);
    assert_eq!(dias_por_ley(14), 22);
    assert_eq!(dias_por_ley(15), 24);
    assert_eq!(dias_por_ley(-3), 0);
}

#[test]
fn disponibles_nunca_negativos() {
    assert_eq!(dias_disponibles(12, 5), 7);
    assert_eq!(dias_disponibles(12, 12), 0);
    assert_eq!(dias_disponibles(12, 30), 0);
    assert_eq!(dias_disponibles(0, 0), 0);
    assert_eq!(dias_disponibles(0, i32::MAX), 0);
}

#[test]
fn antiguedad_respeta_el_aniversario() {
    let hoy = Fecha { anio: 2025, mes: 6, dia: 15 };
    let mut e = empleado_base();
    e.fecha_ingreso = "2020-06-16".to_string();
    assert_eq!(e.calcular_antiguedad(&hoy), 4);
    e.fecha_ingreso = "2020-06-15".to_string();
    assert_eq!(e.calcular_antiguedad(&hoy), 5);
    assert_eq!(e.calcular_dias_por_ley(&hoy), 20);
    assert_eq!(e.calcular_dias_disponibles(&hoy, 6), 14);
    e.fecha_ingreso = "no es fecha".to_string();
    assert_eq!(e.calcular_antiguedad(&hoy), 0);
    assert_eq!(e.calcular_dias_por_ley(&hoy), 0);
}

#[test]
fn antiguedad_en_anio_bisiesto() {
    let desde = parse_fecha("2020-02-29").unwrap();
    assert_eq!(desde, Fecha { anio: 2020, mes: 2, dia: 29 });
    assert_eq!(calcular_anios(&desde, &Fecha { anio: 2021, mes: 2, dia: 28 }), 0);
    assert_eq!(calcular_anios(&desde, &Fecha { anio: 2021, mes: 3, dia: 1 }), 1);
    assert_eq!(parse_fecha("2021-02-29"), None);
}

#[test]
fn disponibles_hoy() {
    let hoy = hoy();
    let e = empleado_base();
    let por_ley = e.calcular_dias_por_ley(&hoy);
    assert_eq!(e.calcular_dias_disponibles(&hoy, 0), por_ley);
    assert_eq!(e.calcular_dias_disponibles(&hoy, 1000), 0);
    assert!(e.calcular_antiguedad(&hoy) >= 0);
}
