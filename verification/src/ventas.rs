//! Personas del sistema de ventas: datos comunes, vendedores y clientes.
//!
//! La parte de productos y precios del sistema queda fuera de este módulo
//! porque trabaja con montos de coma flotante.

use vstd::prelude::*;

verus! {

pub struct DatosPersona {
    pub nombre: String,
    pub apellido: String,
    pub direccion: String,
    pub dni: String,
}

impl DatosPersona {
    pub fn new(nombre: String, apellido: String, direccion: String, dni: String) -> (d:
        DatosPersona)
        ensures
            d == (DatosPersona { nombre, apellido, direccion, dni }),
    {
        DatosPersona { nombre, apellido, direccion, dni }
    }

    pub fn get_nombre(&self) -> (r: &String)
        ensures
            *r == self.nombre,
    {
        &self.nombre
    }

    pub fn get_apellido(&self) -> (r: &String)
        ensures
            *r == self.apellido,
    {
        &self.apellido
    }

    pub fn get_direccion(&self) -> (r: &String)
        ensures
            *r == self.direccion,
    {
        &self.direccion
    }

    pub fn get_dni(&self) -> (r: &String)
        ensures
            *r == self.dni,
    {
        &self.dni
    }
}

pub struct Vendedor {
    pub datos: DatosPersona,
    pub legajo: u32,
}

impl Vendedor {
    pub fn new(nombre: String, apellido: String, direccion: String, dni: String, legajo: u32) -> (v:
        Vendedor)
        ensures
            v.datos == (DatosPersona { nombre, apellido, direccion, dni }),
            v.legajo == legajo,
    {
        Vendedor { datos: DatosPersona::new(nombre, apellido, direccion, dni), legajo }
    }

    /// Acceso a los datos comunes de la persona.
    pub fn get_datos(&self) -> (r: &DatosPersona)
        ensures
            *r == self.datos,
    {
        &self.datos
    }

    pub fn get_legajo(&self) -> (r: u32)
        ensures
            r == self.legajo,
    {
        self.legajo
    }
}

pub struct Cliente {
    pub datos: DatosPersona,
    pub correo: Option<String>,
}

impl Cliente {
    /// Un cliente nuevo arranca sin suscripción al boletín.
    pub fn new(nombre: String, apellido: String, direccion: String, dni: String) -> (c: Cliente)
        ensures
            c.datos == (DatosPersona { nombre, apellido, direccion, dni }),
            c.correo is None,
    {
        Cliente { datos: DatosPersona::new(nombre, apellido, direccion, dni), correo: None }
    }

    /// Acceso a los datos comunes de la persona.
    pub fn get_datos(&self) -> (r: &DatosPersona)
        ensures
            *r == self.datos,
    {
        &self.datos
    }

    /// El correo del boletín, si el cliente está suscrito.
    pub fn get_newsletter(&self) -> (r: Option<&String>)
        ensures
            match r {
                Some(c) => self.correo matches Some(x) && *c == x,
                None => self.correo is None,
            },
    {
        self.correo.as_ref()
    }

    pub fn esta_suscrito(&self) -> (r: bool)
        ensures
            r == (self.correo is Some),
    {
        self.correo.is_some()
    }
}

} // verus!
