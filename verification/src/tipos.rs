//! Datos del mercado: cuentas, roles, productos, ordenes, errores y el
//! evento de cambio de rol, junto con los predicados puros que gobiernan
//! roles y transiciones de estado.

use vstd::prelude::*;

verus! {

/// Identificador opaco de una cuenta. El mercado lo recibe ya
/// verificado por el entorno que invoca cada operacion; aqui solo se
/// compara por igualdad.
pub type AccountId = [u8; 32];

/// Unidad monetaria minima en la que se expresa un precio.
pub type Balance = u128;

/// Rol con el que un usuario queda registrado. `Ambos` subsume las
/// capacidades de `Comprador` y de `Vendedor`.
#[derive(Clone, Copy, Debug, PartialEq, Eq, Structural)]
pub enum RolUsuario {
    Comprador,
    Vendedor,
    Ambos,
}

/// Estado de una orden. El ciclo entregado solo recorre
/// `Pendiente -> Enviada -> Recibida`; `Cancelada` existe como estado
/// nombrado del modelo de datos pero ninguna operacion conduce a el.
#[derive(Clone, Copy, Debug, PartialEq, Eq, Structural)]
pub enum EstadoOrden {
    Pendiente,
    Enviada,
    Recibida,
    Cancelada,
}

/// Fallas locales de validacion. Toda llamada rechazada deja el estado
/// del mercado exactamente como estaba.
#[derive(Clone, Copy, Debug, PartialEq, Eq, Structural)]
pub enum SistemaError {
    CantidadInsuficiente,
    UsuarioNoRegistrado,
    ProductosVacios,
    NoEsRolCorrecto,
    EstadoInvalido,
    OrdenNoExiste,
    UsuarioExistente,
    StockInsuficiente,
}

impl SistemaError {
    /// Texto con el que cada error se presenta a un usuario final.
    pub fn mensaje(&self) -> (r: String)
        ensures
            r@ == self.mensaje_spec(),
    {
        let texto: &str = match self {
            SistemaError::CantidadInsuficiente => "Cantidad insuficiente",
            SistemaError::UsuarioNoRegistrado => "El usuario no se encuentra registrado",
            SistemaError::NoEsRolCorrecto => "El usuario no es del rol correcto",
            SistemaError::ProductosVacios => "No se encontraron productos",
            SistemaError::EstadoInvalido => "El estado de la orden es inválido",
            SistemaError::OrdenNoExiste => "La orden no existe",
            SistemaError::UsuarioExistente => "El usuario ya está registrado",
            SistemaError::StockInsuficiente => "Stock insuficiente para la cantidad solicitada",
        };
        texto.to_string()
    }

    /// Contenido esperado de [`Self::mensaje`].
    pub open spec fn mensaje_spec(self) -> Seq<char> {
        match self {
            SistemaError::CantidadInsuficiente => "Cantidad insuficiente"@,
            SistemaError::UsuarioNoRegistrado => "El usuario no se encuentra registrado"@,
            SistemaError::NoEsRolCorrecto => "El usuario no es del rol correcto"@,
            SistemaError::ProductosVacios => "No se encontraron productos"@,
            SistemaError::EstadoInvalido => "El estado de la orden es inválido"@,
            SistemaError::OrdenNoExiste => "La orden no existe"@,
            SistemaError::UsuarioExistente => "El usuario ya está registrado"@,
            SistemaError::StockInsuficiente => "Stock insuficiente para la cantidad solicitada"@,
        }
    }
}

/// Usuario registrado. Se crea una sola vez por cuenta; los contadores
/// de reputacion nacen en cero y ninguna operacion de este nucleo los
/// modifica (la calificacion bidireccional queda fuera de alcance).
#[derive(Clone, Copy, Debug)]
pub struct Usuario {
    /// Cuenta del usuario; clave primaria del registro.
    pub direccion: AccountId,
    /// Rol vigente del usuario.
    pub rol: RolUsuario,
    /// Reputacion acumulada como comprador.
    pub reputacion_como_comprador: u32,
    /// Reputacion acumulada como vendedor.
    pub reputacion_como_vendedor: u32,
}

/// Producto publicado en el catalogo. Su `id` es secuencial, denso e
/// inmutable; la cantidad solo decrece, por creacion de ordenes.
#[derive(Debug)]
pub struct Producto {
    /// Identificador unico, igual a la posicion en el catalogo.
    pub id: u32,
    /// Nombre del producto.
    pub nombre: String,
    /// Descripcion del producto.
    pub descripcion: String,
    /// Precio en la unidad monetaria minima.
    pub precio: Balance,
    /// Cantidad disponible.
    pub cantidad: u32,
    /// Categoria del producto.
    pub categoria: String,
    /// Cuenta del vendedor que lo publico.
    pub vendedor: AccountId,
}

impl Clone for Producto {
    fn clone(&self) -> (r: Self)
        ensures
            r == *self,
    {
        Producto {
            id: self.id,
            nombre: self.nombre.clone(),
            descripcion: self.descripcion.clone(),
            precio: self.precio,
            cantidad: self.cantidad,
            categoria: self.categoria.clone(),
            vendedor: self.vendedor,
        }
    }
}

impl Producto {
    /// Construye un producto con los campos dados.
    pub fn new(
        id: u32,
        nombre: String,
        descripcion: String,
        precio: Balance,
        cantidad: u32,
        categoria: String,
        vendedor: AccountId,
    ) -> (r: Self)
        ensures
            r == (Producto { id, nombre, descripcion, precio, cantidad, categoria, vendedor }),
    {
        Producto { id, nombre, descripcion, precio, cantidad, categoria, vendedor }
    }
}

/// Orden de compra. Comprador, vendedor y cantidad quedan fijos en la
/// creacion; solo el estado avanza, segun [`transicion_valida`].
#[derive(Clone, Copy, Debug)]
pub struct Orden {
    /// Identificador unico, igual a la posicion en el libro de ordenes.
    pub id: u32,
    /// Cuenta del comprador.
    pub comprador: AccountId,
    /// Cuenta del vendedor del producto comprado.
    pub vendedor: AccountId,
    /// Identificador del producto comprado.
    pub producto_id: u32,
    /// Cantidad comprada.
    pub cantidad: u32,
    /// Estado actual de la orden.
    pub estado: EstadoOrden,
    /// Si el comprador ya califico (nunca se activa en este nucleo).
    pub comprador_califico: bool,
    /// Si el vendedor ya califico (nunca se activa en este nucleo).
    pub vendedor_califico: bool,
}

impl Orden {
    /// Construye una orden recien creada: estado `Pendiente` y sin
    /// calificaciones.
    pub fn new(
        id: u32,
        comprador: AccountId,
        vendedor: AccountId,
        producto_id: u32,
        cantidad: u32,
    ) -> (r: Self)
        ensures
            r == (Orden {
                id,
                comprador,
                vendedor,
                producto_id,
                cantidad,
                estado: EstadoOrden::Pendiente,
                comprador_califico: false,
                vendedor_califico: false,
            }),
    {
        Orden {
            id,
            comprador,
            vendedor,
            producto_id,
            cantidad,
            estado: EstadoOrden::Pendiente,
            comprador_califico: false,
            vendedor_califico: false,
        }
    }
}

/// Notificacion emitida en cada cambio de rol exitoso, para
/// observadores externos; no forma parte del estado que las
/// operaciones consultan.
#[derive(Clone, Copy, Debug)]
pub struct RolActualizado {
    /// Cuenta cuyo rol cambio.
    pub cuenta: AccountId,
    /// Rol que tenia antes del cambio.
    pub rol_anterior: RolUsuario,
    /// Rol que tiene despues del cambio.
    pub rol_nuevo: RolUsuario,
}

/// Un rol satisface un requisito si coincide con el, o si es `Ambos`.
/// `Comprador` y `Vendedor` nunca se satisfacen entre si.
pub open spec fn rol_satisface(rol: RolUsuario, requerido: RolUsuario) -> bool {
    rol == requerido || rol is Ambos
}

/// Quienes pueden crear ordenes: `Comprador` o `Ambos`.
pub open spec fn puede_comprar(rol: RolUsuario) -> bool {
    rol is Comprador || rol is Ambos
}

/// Tabla de cambios de rol permitidos: un rol simple solo puede pasar
/// al otro rol simple, y `Ambos` solo puede estrecharse a un rol
/// simple. Reafirmar el rol vigente o pasar a `Ambos` se rechaza.
pub open spec fn cambio_rol_permitido(actual: RolUsuario, solicitado: RolUsuario) -> bool {
    ||| (actual is Vendedor && solicitado is Comprador)
    ||| (actual is Comprador && solicitado is Vendedor)
    ||| (actual is Ambos && solicitado is Comprador)
    ||| (actual is Ambos && solicitado is Vendedor)
}

/// Aristas del ciclo de vida de una orden: `Pendiente -> Enviada` y
/// `Enviada -> Recibida`. Ninguna otra transicion es valida.
pub open spec fn transicion_valida(actual: EstadoOrden, nuevo: EstadoOrden) -> bool {
    ||| (actual is Pendiente && nuevo is Enviada)
    ||| (actual is Enviada && nuevo is Recibida)
}

/// El estado de una orden quedo igual o avanzo por una unica arista
/// valida. Paso a paso, esto fuerza que los estados visitados por una
/// orden formen una subsecuencia de
/// `Pendiente, Enviada, Recibida`: nunca hacia atras, nunca salteando.
pub open spec fn avance_valido(antes: EstadoOrden, despues: EstadoOrden) -> bool {
    antes == despues || transicion_valida(antes, despues)
}

/// Quien esta autorizado a llevar una orden a `objetivo`: a `Enviada`
/// solo su vendedor, a `Recibida` solo su comprador. Cualquier otro
/// objetivo se delega al control de transicion de estado.
pub open spec fn actor_autorizado(orden: Orden, llamador: AccountId, objetivo: EstadoOrden) -> bool {
    match objetivo {
        EstadoOrden::Enviada => llamador == orden.vendedor,
        EstadoOrden::Recibida => llamador == orden.comprador,
        _ => true,
    }
}

/// Compara dos cuentas byte a byte.
pub fn misma_cuenta(a: &AccountId, b: &AccountId) -> (r: bool)
    ensures
        r == (*a == *b),
{
    let mut i: usize = 0;
    while i < 32
        invariant
            i <= 32,
            forall|j: int| 0 <= j < i ==> a[j] == b[j],
        decreases 32 - i,
    {
        if a[i] != b[i] {
            return false;
        }
        i += 1;
    }
    proof {
        broadcast use vstd::array::group_array_axioms;

        assert(*a =~= *b);
    }
    true
}

} // verus!
