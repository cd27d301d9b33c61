use marketplace_principal::AccountId;
use marketplace_principal::MarketplacePrincipal;
use marketplace_principal::RolUsuario;
use marketplace_principal::SistemaError;

fn cuenta(b: u8) -> AccountId {
    [b; 32]
}

// Mercado con un vendedor ya registrado en la cuenta [0x01; 32].
fn setup_contract_con_vendedor() -> MarketplacePrincipal {
    let mut contrato = MarketplacePrincipal::new();
    let caller = cuenta(0x01);
    contrato
        .registrar_usuario(caller, RolUsuario::Vendedor)
        .unwrap();
    contrato
}

#[test]
fn publicar_producto_ok() {
    let mut contrato = setup_contract_con_vendedor();
    let vendedor = cuenta(0x01);

    let resultado = contrato.publicar_producto(
        vendedor,
        "Celular".to_string(),
        "Un buen celular".to_string(),
        1000,
        5,
        "Tecnología".to_string(),
    );

    assert!(resultado.is_ok());
    assert_eq!(contrato.cantidad_productos(), 1);

    let producto = contrato.obtener_producto(0).unwrap();
    assert_eq!(producto.nombre, "Celular");
    assert_eq!(producto.precio, 1000);
}

#[test]
fn publicar_producto_no_registrado_falla() {
    let mut contrato = MarketplacePrincipal::new();
    let caller = cuenta(0x02);

    let resultado = contrato.publicar_producto(
        caller,
        "Producto".to_string(),
        "Sin registro".to_string(),
        500,
        1,
        "Otros".to_string(),
    );

    assert!(matches!(resultado, Err(SistemaError::UsuarioNoRegistrado)));
}

#[test]
fn publicar_producto_no_es_vendedor_falla() {
    let mut contrato = MarketplacePrincipal::new();
    let caller = cuenta(0x03);
    contrato
        .registrar_usuario(caller, RolUsuario::Comprador)
        .unwrap();

    let resultado = contrato.publicar_producto(
        caller,
        "Producto".to_string(),
        "No autorizado".to_string(),
        100,
        2,
        "Otros".to_string(),
    );

    assert!(matches!(resultado, Err(SistemaError::NoEsRolCorrecto)));
}

#[test]
fn publicar_producto_cantidad_cero_falla() {
    let mut contrato = setup_contract_con_vendedor();
    let vendedor = cuenta(0x01);

    let resultado = contrato.publicar_producto(
        vendedor,
        "Producto".to_string(),
        "Cantidad cero".to_string(),
        100,
        0,
        "Otros".to_string(),
    );

    assert!(matches!(resultado, Err(SistemaError::CantidadInsuficiente)));
}

#[test]
fn listar_interno_ok_para_vendedor() {
    let mut c = setup_contract_con_vendedor();
    let caller = cuenta(0x01);

    c.publicar_producto(
        caller,
        "P1".to_string(),
        "D".to_string(),
        100,
        5,
        "Cat".to_string(),
    )
    .unwrap();
    c.publicar_producto(
        caller,
        "P2".to_string(),
        "D".to_string(),
        200,
        3,
        "Cat".to_string(),
    )
    .unwrap();

    let v = c.listar_productos_interno(caller).unwrap();
    assert_eq!(v.len(), 2, "Debe devolver exactamente 2 productos del seller");
    assert!(
        v.iter().all(|p| p.vendedor == caller),
        "Todos los productos deben pertenecer al seller"
    );
}

#[test]
fn listar_interno_falla_si_no_registrado() {
    let c = MarketplacePrincipal::new();
    let no_reg = cuenta(9);

    let res = c.listar_productos_interno(no_reg);
    assert!(matches!(res, Err(SistemaError::UsuarioNoRegistrado)));
}

#[test]
fn listar_interno_falla_si_no_es_vendedor() {
    let mut c = MarketplacePrincipal::new();
    let buyer = cuenta(2);
    c.registrar_usuario(buyer, RolUsuario::Comprador).unwrap();

    let res = c.listar_productos_interno(buyer);
    assert!(matches!(res, Err(SistemaError::NoEsRolCorrecto)));
}

#[test]
fn listar_interno_falla_si_no_tiene_productos() {
    let c = setup_contract_con_vendedor();
    let caller = cuenta(0x01);

    let res = c.listar_productos_interno(caller);
    assert!(matches!(res, Err(SistemaError::ProductosVacios)));
}
