//! Motor de un mercado entre pares: registro de usuarios con rol,
//! catalogo de productos con control de stock, y ordenes de compra que
//! avanzan por un ciclo de vida fijo bajo autorizacion por actor.
//!
//! El estado observable se modela con [`vista::VistaMercado`]; cada
//! operacion publica de [`mercado::MarketplacePrincipal`] esta
//! especificada como una funcion de transicion sobre esa vista, y las
//! leyes globales (conservacion de stock, avance monotono de las
//! ordenes, simetria de autorizacion, idempotencia del registro y la
//! tabla de cambios de rol) se demuestran en [`leyes`].

pub mod tipos;
pub mod vista;
pub mod leyes;
pub mod mercado;

pub use tipos::AccountId;
pub use tipos::Balance;
pub use tipos::RolUsuario;
pub use tipos::EstadoOrden;
pub use tipos::SistemaError;
pub use tipos::Usuario;
pub use tipos::Producto;
pub use tipos::Orden;
pub use tipos::RolActualizado;
pub use mercado::MarketplacePrincipal;
