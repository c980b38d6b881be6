use vacaciones::auth::{
    autenticar, clave_de_empleado, debe_configurar, verify_password, hash_password, primer_empleado, resultado_login,
    validate_password_strength, AdminUser, AuthError, AuthUser,
};
use vacaciones::empleado::Empleado;
use vacaciones::error::AppError;
use vacaciones::registro::Item;

fn empleado(es_admin: bool, hash: Option<String>) -> Empleado {
    Empleado {
        id: "e9".to_string(),
        nombre: "Eva".to_string(),
        departamento: "RH".to_string(),
        email: "eva@example.com".to_string(),
        es_admin,
        fecha_ingreso: "2021-09-01".to_string(),
        password_hash: hash,
        dias_disponibles: None,
        dias_tomados: None,
        antiguedad_anos: None,
    }
}

#[test]
fn fortaleza_de_password() {
    match validate_password_strength("abcdefgh") {
        Err(AppError::BadRequest(m)) => assert!(!m.is_empty()),
        otro => panic!("{:?}", otro),
    }
    match validate_password_strength("Ab1") {
        Err(AppError::BadRequest(m)) => assert_eq!(m, "La contraseña debe tener al menos 8 caracteres"),
        otro => panic!("{:?}", otro),
    }
    assert!(validate_password_strength("Abcdef12").is_ok());
    assert!(matches!(validate_password_strength("Abc12"), Err(AppError::BadRequest(_))));
    assert!(matches!(validate_password_strength("ABCDEF12"), Err(AppError::BadRequest(_))));
    assert!(matches!(validate_password_strength("Abcdefgh"), Err(AppError::BadRequest(_))));
    assert!(validate_password_strength("Ñandú123").is_ok());
}

#[test]
fn sesion_de_empleado_borrado() {
    let r = AuthUser::resolver(Some("e9"), None);
    assert!(matches!(r, Err(AuthError::Unauthenticated)));
    let r = AuthUser::resolver(None, None);
    assert!(matches!(r, Err(AuthError::Unauthenticated)));
    let corrupto: Item = Vec::new();
    let r = AuthUser::resolver(Some("e9"), Some(&corrupto));
    assert!(matches!(r, Err(AuthError::Unauthenticated)));
}

#[test]
fn sesion_valida_y_capacidad_de_admin() {
    let item = empleado(false, None).to_item();
    let u = AuthUser::resolver(Some("e9"), Some(&item)).unwrap();
    assert_eq!(u.empleado.id, "e9");
    assert!(matches!(AdminUser::desde_usuario(u), Err(AuthError::Forbidden)));
    assert!(matches!(AdminUser::resolver(Some("e9"), Some(&item)), Err(AuthError::Forbidden)));
    let item = empleado(true, None).to_item();
    let a = AdminUser::resolver(Some("e9"), Some(&item)).unwrap();
    assert_eq!(a.empleado.email, "eva@example.com");
    assert!(matches!(AdminUser::resolver(Some("e9"), None), Err(AuthError::Unauthenticated)));
}

const HASH_DE_PASSWORD: &str = "$2a$04$UuTkLRZZ6QofpDOlMz32MuuxEHA43WOemOYHPz6.SjsVsyO1tDU96";

#[test]
fn login_con_bcrypt() {
    let ok = autenticar(Some(empleado(false, Some(HASH_DE_PASSWORD.to_string()))), "password").unwrap();
    assert_eq!(ok.id, "e9");
    let mal = autenticar(Some(empleado(false, Some(HASH_DE_PASSWORD.to_string()))), "Password");
    assert!(matches!(mal, Err(AppError::Unauthorized(_))));
    let sin_hash = autenticar(Some(empleado(false, None)), "password");
    assert!(matches!(sin_hash, Err(AppError::Unauthorized(_))));
    assert!(matches!(autenticar(None, "password"), Err(AppError::Unauthorized(_))));
    for r in [
        autenticar(Some(empleado(false, Some(HASH_DE_PASSWORD.to_string()))), "Password"),
        autenticar(Some(empleado(false, None)), "password"),
        autenticar(None, "password"),
    ] {
        match r {
            Err(AppError::Unauthorized(m)) => assert_eq!(m, "Email o contraseña incorrectos"),
            otro => panic!("{:?}", otro),
        }
    }
    assert_eq!(verify_password("password", HASH_DE_PASSWORD).unwrap(), true);
    assert_eq!(verify_password("otra", HASH_DE_PASSWORD).unwrap(), false);
    assert!(matches!(verify_password("x", "no-es-bcrypt"), Err(AppError::InternalError(_))));
    let roto = autenticar(Some(empleado(false, Some("no-es-bcrypt".to_string()))), "x");
    assert!(matches!(roto, Err(AppError::InternalError(_))));
}

#[test]
fn hash_de_password_nuevo() {
    let hash = hash_password("Secreta12").unwrap();
    assert_ne!(hash, "Secreta12");
    assert!(hash.starts_with("$2b$12$"));
    assert_eq!(hash.len(), 60);
    assert_eq!(verify_password("Secreta12", &hash).unwrap(), true);
    match hash_password("abcdefgh") {
        Err(AppError::BadRequest(m)) => {
            assert_eq!(m, "La contraseña debe contener mayúsculas, minúsculas y números")
        }
        otro => panic!("{:?}", otro),
    }
}

#[test]
fn resultado_de_la_verificacion() {
    assert!(resultado_login(empleado(false, None), Ok(true)).is_ok());
    assert!(matches!(resultado_login(empleado(false, None), Ok(false)), Err(AppError::Unauthorized(_))));
    assert!(matches!(
        resultado_login(empleado(false, None), Err(AppError::InternalError("hash".to_string()))),
        Err(AppError::InternalError(_))
    ));
}

#[test]
fn primer_empleado_de_una_busqueda() {
    assert!(primer_empleado(&Vec::new()).unwrap().is_none());
    let items: Vec<Item> = vec![empleado(true, None).to_item(), Vec::new()];
    assert_eq!(primer_empleado(&items).unwrap().unwrap().id, "e9");
    let items: Vec<Item> = vec![Vec::new(), empleado(true, None).to_item()];
    assert!(matches!(primer_empleado(&items), Err(AppError::InternalError(_))));
    assert_eq!(clave_de_empleado("e9"), "EMPLEADO#e9");
}

#[test]
fn respuesta_del_operador() {
    assert!(debe_configurar(true, "s"));
    assert!(debe_configurar(true, "sí"));
    assert!(!debe_configurar(true, ""));
    assert!(!debe_configurar(true, "n"));
    assert!(debe_configurar(false, ""));
    assert!(debe_configurar(false, "s"));
    assert!(!debe_configurar(false, "no"));
}
