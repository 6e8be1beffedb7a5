use practicas::ventas::{Cliente, DatosPersona, Vendedor};

#[test]
fn test_datos_persona() {
    let datos = DatosPersona::new(
        "Ana".to_string(),
        "Lopez".to_string(),
        "Calle 7".to_string(),
        "30111222".to_string(),
    );
    assert_eq!(datos.get_nombre(), "Ana");
    assert_eq!(datos.get_apellido(), "Lopez");
    assert_eq!(datos.get_direccion(), "Calle 7");
    assert_eq!(datos.get_dni(), "30111222");
}

#[test]
fn test_vendedor() {
    let vendedor = Vendedor::new(
        "Luis".to_string(),
        "Gomez".to_string(),
        "Calle 9".to_string(),
        "28444555".to_string(),
        42,
    );
    assert_eq!(vendedor.get_legajo(), 42);
    assert_eq!(vendedor.get_datos().get_nombre(), "Luis");
    assert_eq!(vendedor.get_datos().get_dni(), "28444555");
}

#[test]
fn test_cliente_sin_newsletter() {
    let cliente = Cliente::new(
        "Mia".to_string(),
        "Diaz".to_string(),
        "Calle 11".to_string(),
        "33666777".to_string(),
    );
    assert!(!cliente.esta_suscrito());
    assert!(cliente.get_newsletter().is_none());
    assert_eq!(cliente.get_datos().get_apellido(), "Diaz");
}

#[test]
fn test_cliente_con_newsletter() {
    let mut cliente = Cliente::new(
        "Mia".to_string(),
        "Diaz".to_string(),
        "Calle 11".to_string(),
        "33666777".to_string(),
    );
    cliente.correo = Some("mia@ejemplo.com".to_string());
    assert!(cliente.esta_suscrito());
    assert_eq!(cliente.get_newsletter().unwrap(), "mia@ejemplo.com");
}
