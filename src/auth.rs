use vstd::prelude::*;
use crate::empleado::{clave_empleado, empleado_de_item, Empleado};
use crate::error::AppError;
use crate::registro::{vista, Item};
use crate::texto::{es_cifra, unir};

verus! {

/// An employee whose session resolved.
#[derive(Debug, Clone)]
pub struct AuthUser {
    pub empleado: Empleado,
}

/// An authenticated employee who is also an administrator.
#[derive(Debug, Clone)]
pub struct AdminUser {
    pub empleado: Empleado,
}

/// Why a request was not let through.
#[derive(Debug)]
pub enum AuthError {
    Unauthenticated,
    Forbidden,
    DatabaseError(String),
    SessionError(String),
}

/// What a login form carries.
#[derive(Debug)]
pub struct LoginForm {
    pub email: String,
    pub password: String,
}

/// Whether `char::is_uppercase` holds of a character.
pub uninterp spec fn es_mayuscula(c: char) -> bool;

/// Whether `char::is_lowercase` holds of a character.
pub uninterp spec fn es_minuscula(c: char) -> bool;

/// What bcrypt's `verify` reports for a password and a stored hash: `None`
/// where it reports an error.
pub uninterp spec fn bcrypt_verifica(password: Seq<char>, hash: Seq<char>) -> Option<bool>;

/// Relies on `char::is_uppercase`: the Unicode `Uppercase` property, which
/// among ASCII characters only `A` to `Z` have.
#[verifier::external_body]
fn mayuscula(c: char) -> (r: bool)
    ensures
        r == es_mayuscula(c),
        (c as u32) < 128 ==> (r <==> ('A' <= c && c <= 'Z')),
{
    c.is_uppercase()
}

/// Relies on `char::is_lowercase`: the Unicode `Lowercase` property, which
/// among ASCII characters only `a` to `z` have.
#[verifier::external_body]
fn minuscula(c: char) -> (r: bool)
    ensures
        r == es_minuscula(c),
        (c as u32) < 128 ==> (r <==> ('a' <= c && c <= 'z')),
{
    c.is_lowercase()
}

/// Relies on bcrypt's `verify`: whether the password hashes to the stored
/// hash, with the cost and salt that the hash carries; an error where the hash
/// is not well-formed. The answer depends on the two texts alone.
#[verifier::external_body]
fn verificar_hash(password: &str, hash: &str) -> (r: Result<bool, String>)
    ensures
        match r {
            Ok(b) => bcrypt_verifica(password@, hash@) == Some(b),
            Err(_) => bcrypt_verifica(password@, hash@) is None,
        },
{
    match bcrypt::verify(password, hash) {
        Ok(b) => Ok(b),
        Err(e) => Err(e.to_string()),
    }
}

/// Relies on bcrypt's `hash` with its default cost (12): a salted one-way hash
/// with a fresh random salt, written as the 60 characters of `$2b$12$`, salt
/// and digest. `verify` re-runs the hash with the cost and salt that the text
/// carries, so the password verifies against it.
#[verifier::external_body]
fn hashear(password: &str) -> (r: Result<String, String>)
    ensures
        r matches Ok(h) ==> h@.len() == 60 && bcrypt_verifica(password@, h@) == Some(true),
{
    match bcrypt::hash(password, bcrypt::DEFAULT_COST) {
        Ok(h) => Ok(h),
        Err(e) => Err(e.to_string()),
    }
}

pub open spec fn tiene_mayuscula(s: Seq<char>) -> bool {
    exists|i: int| 0 <= i < s.len() && es_mayuscula(#[trigger] s[i])
}

pub open spec fn tiene_minuscula(s: Seq<char>) -> bool {
    exists|i: int| 0 <= i < s.len() && es_minuscula(#[trigger] s[i])
}

pub open spec fn tiene_cifra(s: Seq<char>) -> bool {
    exists|i: int| 0 <= i < s.len() && es_cifra(#[trigger] s[i])
}

/// The password policy: at least 8 characters, with an uppercase letter,
/// a lowercase letter and an ASCII digit.
pub open spec fn password_fuerte(s: Seq<char>) -> bool {
    s.len() >= 8 && tiene_mayuscula(s) && tiene_minuscula(s) && tiene_cifra(s)
}

/// The reason a password is refused.
pub open spec fn motivo_password(s: Seq<char>) -> Seq<char> {
    if s.len() < 8 {
        "La contraseña debe tener al menos 8 caracteres"@
    } else {
        "La contraseña debe contener mayúsculas, minúsculas y números"@
    }
}

/// The one reason given for every failed login, whatever failed.
pub open spec fn credenciales_incorrectas() -> Seq<char> {
    "Email o contraseña incorrectos"@
}

/// Checks a password against the policy, before it is hashed.
pub fn validate_password_strength(password: &str) -> (r: Result<(), AppError>)
    ensures
        r is Ok <==> password_fuerte(password@),
        r is Err ==> (r matches Err(AppError::BadRequest(m)) && m@ == motivo_password(password@)),
{
    let n = password.unicode_len();
    if n < 8 {
        return Err(AppError::BadRequest(String::from_str("La contraseña debe tener al menos 8 caracteres")));
    }
    let mut mayus = false;
    let mut minus = false;
    let mut cifra = false;
    let mut i: usize = 0;
    while i < n
        invariant
            n == password@.len(),
            i <= n,
            mayus <==> exists|j: int| 0 <= j < i && es_mayuscula(#[trigger] password@[j]),
            minus <==> exists|j: int| 0 <= j < i && es_minuscula(#[trigger] password@[j]),
            cifra <==> exists|j: int| 0 <= j < i && es_cifra(#[trigger] password@[j]),
        decreases n - i,
    {
        let c = password.get_char(i);
        if mayuscula(c) {
            mayus = true;
        }
        if minuscula(c) {
            minus = true;
        }
        if c == '0' || c == '1' || c == '2' || c == '3' || c == '4' || c == '5' || c == '6' || c
            == '7' || c == '8' || c == '9' {
            cifra = true;
        }
        i = i + 1;
    }
    if !mayus || !minus || !cifra {
        return Err(
            AppError::BadRequest(
                String::from_str("La contraseña debe contener mayúsculas, minúsculas y números"),
            ),
        );
    }
    Ok(())
}

/// Checks a password against the policy and hashes it for storing.
pub fn hash_password(password: &str) -> (r: Result<String, AppError>)
    ensures
        !password_fuerte(password@) ==> (r matches Err(AppError::BadRequest(m)) && m@
            == motivo_password(password@)),
        password_fuerte(password@) ==> match r {
            Ok(h) => h@.len() == 60 && bcrypt_verifica(password@, h@) == Some(true),
            Err(e) => e is InternalError,
        },
{
    match validate_password_strength(password) {
        Ok(()) => {},
        Err(e) => {
            return Err(e);
        },
    }
    match hashear(password) {
        Ok(h) => Ok(h),
        Err(e) => Err(AppError::InternalError(unir("Password hashing failed: ", e.as_str()))),
    }
}

/// Whether a password matches a stored bcrypt hash; an error when the hash is
/// not well-formed.
pub fn verify_password(password: &str, hash: &str) -> (r: Result<bool, AppError>)
    ensures
        match bcrypt_verifica(password@, hash@) {
            Some(b) => r == Ok::<bool, AppError>(b),
            None => r matches Err(AppError::InternalError(_)),
        },
{
    match verificar_hash(password, hash) {
        Ok(b) => Ok(b),
        Err(e) => Err(AppError::InternalError(unir("Password verification failed: ", e.as_str()))),
    }
}

/// The outcome of a login once the password has been checked: `verificacion`
/// is what `verify_password` reported for the submitted password and the
/// employee's stored hash.
pub fn resultado_login(empleado: Empleado, verificacion: Result<bool, AppError>) -> (r: Result<
    Empleado,
    AppError,
>)
    ensures
        match verificacion {
            Ok(true) => r matches Ok(e) && e@ == empleado@,
            Ok(false) => r matches Err(AppError::Unauthorized(m)) && m@ == credenciales_incorrectas(),
            Err(e) => r matches Err(x) && x == e,
        },
{
    match verificacion {
        Ok(true) => Ok(empleado),
        Ok(false) => Err(AppError::Unauthorized(String::from_str("Email o contraseña incorrectos"))),
        Err(e) => Err(e),
    }
}

/// Checks a submitted password against the stored hash of the employee found
/// for the submitted email (`None` when none was found).
pub fn autenticar(empleado: Option<Empleado>, password: &str) -> (r: Result<Empleado, AppError>)
    ensures
        match empleado {
            None => r matches Err(AppError::Unauthorized(m)) && m@ == credenciales_incorrectas(),
            Some(e) => match e.password_hash {
                None => r matches Err(AppError::Unauthorized(m)) && m@ == credenciales_incorrectas(),
                Some(h) => match bcrypt_verifica(password@, h@) {
                    Some(true) => r matches Ok(x) && x@ == e@,
                    Some(false) => r matches Err(AppError::Unauthorized(m)) && m@
                        == credenciales_incorrectas(),
                    None => r matches Err(AppError::InternalError(_)),
                },
            },
        },
{
    let e = match empleado {
        Some(e) => e,
        None => {
            return Err(AppError::Unauthorized(String::from_str("Email o contraseña incorrectos")));
        },
    };
    let verificacion = match &e.password_hash {
        Some(h) => verify_password(password, h.as_str()),
        None => {
            return Err(AppError::Unauthorized(String::from_str("Email o contraseña incorrectos")));
        },
    };
    resultado_login(e, verificacion)
}

/// The employee that a lookup by email found: the first record returned.
/// A record that does not read as an employee is an error.
pub fn primer_empleado(items: &Vec<Item>) -> (r: Result<Option<Empleado>, AppError>)
    ensures
        items@.len() == 0 ==> r matches Ok(None),
        items@.len() > 0 ==> match empleado_de_item(vista(items@[0]@)) {
            Some(e) => r matches Ok(Some(x)) && x@ == e,
            None => r matches Err(AppError::InternalError(_)),
        },
{
    if items.len() == 0 {
        Ok(None)
    } else {
        match Empleado::from_item(&items[0]) {
            Some(e) => Ok(Some(e)),
            None => Err(AppError::InternalError(String::from_str("Error al parsear empleado"))),
        }
    }
}

/// Whether an answer (already trimmed and lowercased) to "set a password?"
/// means yes. For an employee who has one, only an explicit yes counts; for
/// one who has none, anything but an explicit no counts.
pub open spec fn respuesta_afirmativa(tiene_password: bool, respuesta: Seq<char>) -> bool {
    if tiene_password {
        respuesta == "s"@ || respuesta == "si"@ || respuesta == "sí"@
    } else {
        respuesta != "n"@ && respuesta != "no"@
    }
}

/// Decides from an operator's answer whether to set an employee's password.
pub fn debe_configurar(tiene_password: bool, respuesta: &str) -> (r: bool)
    ensures
        r == respuesta_afirmativa(tiene_password, respuesta@),
{
    let r = String::from_str(respuesta);
    if tiene_password {
        r == String::from_str("s") || r == String::from_str("si") || r == String::from_str("sí")
    } else {
        r != String::from_str("n") && r != String::from_str("no")
    }
}

/// The partition key of an employee and of its requests.
pub fn clave_de_empleado(empleado_id: &str) -> (r: String)
    ensures
        r@ == clave_empleado(empleado_id@),
{
    unir("EMPLEADO#", empleado_id)
}

impl AuthUser {
    /// Resolves a session to an employee: the employee id the session holds
    /// (`None` when there is no session, it expired, or it could not be read)
    /// and the record stored under that id (`None` when there is none or it
    /// could not be read). Every failure is the same `Unauthenticated`.
    pub fn resolver(empleado_id: Option<&str>, registro: Option<&Item>) -> (r: Result<
        AuthUser,
        AuthError,
    >)
        ensures
            empleado_id is None || registro is None ==> r matches Err(
                AuthError::Unauthenticated,
            ),
            empleado_id is Some && registro is Some ==> match empleado_de_item(
                vista(registro->0@),
            ) {
                Some(e) => r matches Ok(u) && u.empleado@ == e,
                None => r matches Err(AuthError::Unauthenticated),
            },
    {
        if empleado_id.is_none() {
            return Err(AuthError::Unauthenticated);
        }
        match registro {
            Some(item) => match Empleado::from_item(item) {
                Some(empleado) => Ok(AuthUser { empleado }),
                None => Err(AuthError::Unauthenticated),
            },
            None => Err(AuthError::Unauthenticated),
        }
    }
}

impl AdminUser {
    /// Grants the administrator capability to an authenticated employee who
    /// has the admin flag.
    pub fn desde_usuario(usuario: AuthUser) -> (r: Result<AdminUser, AuthError>)
        ensures
            usuario.empleado.es_admin ==> (r matches Ok(a) && a.empleado@ == usuario.empleado@),
            !usuario.empleado.es_admin ==> r matches Err(AuthError::Forbidden),
    {
        if !usuario.empleado.es_admin {
            return Err(AuthError::Forbidden);
        }
        Ok(AdminUser { empleado: usuario.empleado })
    }

    /// Resolves a session to an administrator: the same resolution as for any
    /// employee, then the admin flag.
    pub fn resolver(empleado_id: Option<&str>, registro: Option<&Item>) -> (r: Result<
        AdminUser,
        AuthError,
    >)
        ensures
            empleado_id is None || registro is None ==> r matches Err(
                AuthError::Unauthenticated,
            ),
            empleado_id is Some && registro is Some ==> match empleado_de_item(
                vista(registro->0@),
            ) {
                Some(e) => if e.es_admin {
                    r matches Ok(a) && a.empleado@ == e
                } else {
                    r matches Err(AuthError::Forbidden)
                },
                None => r matches Err(AuthError::Unauthenticated),
            },
    {
        let usuario = AuthUser::resolver(empleado_id, registro)?;
        AdminUser::desde_usuario(usuario)
    }
}

} // verus!
