use vstd::prelude::*;
use crate::texto::{decimal, texto_i32, unir};

verus! {

/// The settings the server runs with.
#[derive(Clone, Debug)]
pub struct Config {
    pub server_host: String,
    pub server_port: u16,
    pub dynamodb_table_name: String,
    pub session_secret: String,
    pub session_ttl_days: i64,
}

impl Config {
    /// The address to listen on: host, a colon, and the port in decimal.
    pub fn server_address(&self) -> (r: String)
        ensures
            r@ == self.server_host@ + ":"@ + decimal(self.server_port as int),
    {
        let con_dos_puntos = unir(self.server_host.as_str(), ":");
        let puerto = texto_i32(self.server_port as i32);
        unir(con_dos_puntos.as_str(), puerto.as_str())
    }
}

} // verus!
