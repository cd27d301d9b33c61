//! Implementacion ejecutable del mercado. Cada operacion publica esta
//! especificada contra su funcion de transicion de `vista`: el estado
//! que deja y el resultado que devuelve son exactamente los del modelo.

use vstd::prelude::*;

use crate::tipos::AccountId;
use crate::tipos::Balance;
use crate::tipos::EstadoOrden;
use crate::tipos::Orden;
use crate::tipos::Producto;
use crate::tipos::RolActualizado;
use crate::tipos::RolUsuario;
use crate::tipos::SistemaError;
use crate::tipos::Usuario;
use crate::tipos::misma_cuenta;
use crate::tipos::cambio_rol_permitido;
use crate::tipos::puede_comprar;
use crate::tipos::rol_satisface;
use crate::tipos::actor_autorizado;
use crate::tipos::transicion_valida;
use crate::vista::VistaMercado;
use crate::vista::direcciones_unicas;
use crate::vista::invariante;
use crate::vista::actualizar_estado_spec;
use crate::vista::crear_orden_spec;
use crate::vista::listar_spec;
use crate::vista::modificar_rol_spec;
use crate::vista::productos_de;
use crate::vista::publicar_spec;
use crate::vista::registrado;
use crate::vista::registrar_spec;
use crate::vista::usuario_de;
use crate::vista::vista_vacia;
use crate::leyes::lema_actualizar_estado_preserva_invariante;
use crate::leyes::lema_crear_orden_preserva_invariante;
use crate::leyes::lema_indice_usuario;
use crate::leyes::lema_modificar_rol_preserva_invariante;
use crate::leyes::lema_productos_de_agregar;
use crate::leyes::lema_publicar_preserva_invariante;
use crate::leyes::lema_registrar_preserva_invariante;
use crate::leyes::lema_usuario_de_actualizar;
use crate::leyes::lema_usuario_de_agregar;

verus! {

/// Estado del mercado: registro de usuarios, catalogo de productos,
/// libro de ordenes y notificaciones emitidas. El campo `publicado` es
/// historia fantasma (sin presencia en tiempo de ejecucion): la
/// cantidad con la que cada producto fue publicado.
pub struct MarketplacePrincipal {
    usuarios: Vec<Usuario>,
    productos: Vec<Producto>,
    ordenes: Vec<Orden>,
    eventos: Vec<RolActualizado>,
    publicado: Ghost<Seq<u32>>,
}

impl View for MarketplacePrincipal {
    type V = VistaMercado;

    closed spec fn view(&self) -> VistaMercado {
        VistaMercado {
            usuarios: self.usuarios@,
            productos: self.productos@,
            ordenes: self.ordenes@,
            eventos: self.eventos@,
            publicado: self.publicado@,
        }
    }
}

impl MarketplacePrincipal {
    /// Crea un mercado vacio.
    pub fn new() -> (m: Self)
        ensures
            m@ == vista_vacia(),
            invariante(m@),
    {
        let m = MarketplacePrincipal {
            usuarios: Vec::new(),
            productos: Vec::new(),
            ordenes: Vec::new(),
            eventos: Vec::new(),
            publicado: Ghost(Seq::empty()),
        };
        proof {
            assert(m@ =~= vista_vacia());
        }
        m
    }

    /// Posicion del registro de `quien`, si existe; devuelve la primera
    /// coincidencia, que con direcciones unicas es la unica.
    fn buscar_usuario(&self, quien: &AccountId) -> (r: Option<usize>)
        ensures
            match r {
                Some(i) => {
                    &&& i < self@.usuarios.len()
                    &&& self@.usuarios[i as int].direccion == *quien
                },
                None => !registrado(self@.usuarios, *quien),
            },
    {
        let mut i: usize = 0;
        while i < self.usuarios.len()
            invariant
                i <= self.usuarios.len(),
                forall|j: int| 0 <= j < i ==> self.usuarios@[j].direccion != *quien,
            decreases self.usuarios.len() - i,
        {
            if misma_cuenta(&self.usuarios[i].direccion, quien) {
                return Some(i);
            }
            i += 1;
        }
        None
    }

    /// Registra a `llamador` con el rol pedido.
    ///
    /// # Errores
    /// - `UsuarioExistente` si la cuenta ya esta registrada.
    pub fn registrar_usuario(&mut self, llamador: AccountId, rol: RolUsuario) -> (r: Result<
        (),
        SistemaError,
    >)
        requires
            invariante(old(self)@),
        ensures
            invariante(final(self)@),
            final(self)@ == registrar_spec(old(self)@, llamador, rol).0,
            r == registrar_spec(old(self)@, llamador, rol).1,
            r is Ok ==> usuario_de(final(self)@.usuarios, llamador) == Some(
                Usuario {
                    direccion: llamador,
                    rol,
                    reputacion_como_comprador: 0u32,
                    reputacion_como_vendedor: 0u32,
                },
            ),
            forall|q: AccountId|
                q != llamador ==> usuario_de(final(self)@.usuarios, q) == usuario_de(
                    old(self)@.usuarios,
                    q,
                ),
    {
        proof {
            lema_registrar_preserva_invariante(old(self)@, llamador, rol);
        }
        match self.buscar_usuario(&llamador) {
            Some(_) => Err(SistemaError::UsuarioExistente),
            None => {
                let nuevo = Usuario {
                    direccion: llamador,
                    rol,
                    reputacion_como_comprador: 0,
                    reputacion_como_vendedor: 0,
                };
                self.usuarios.push(nuevo);
                proof {
                    assert(self@ =~= registrar_spec(old(self)@, llamador, rol).0);
                    lema_usuario_de_agregar(old(self)@.usuarios, nuevo);
                }
                Ok(())
            },
        }
    }

    /// Si la cuenta `usuario` esta registrada.
    pub fn esta_registrado(&self, usuario: AccountId) -> (r: bool)
        ensures
            r == registrado(self@.usuarios, usuario),
    {
        match self.buscar_usuario(&usuario) {
            Some(_) => true,
            None => false,
        }
    }

    /// Exige que `usuario` este registrado.
    fn verificar_registro(&self, usuario: AccountId) -> (r: Result<(), SistemaError>)
        ensures
            r == if registrado(self@.usuarios, usuario) {
                Ok::<(), SistemaError>(())
            } else {
                Err(SistemaError::UsuarioNoRegistrado)
            },
    {
        match self.buscar_usuario(&usuario) {
            Some(_) => Ok(()),
            None => Err(SistemaError::UsuarioNoRegistrado),
        }
    }

    /// Exige que `usuario` tenga el rol requerido, donde `Ambos` lo
    /// satisface todo.
    fn verificar_rol(&self, usuario: AccountId, rol_requerido: RolUsuario) -> (r: Result<
        (),
        SistemaError,
    >)
        requires
            direcciones_unicas(self@.usuarios),
        ensures
            r == (match usuario_de(self@.usuarios, usuario) {
                None => Err::<(), SistemaError>(SistemaError::UsuarioNoRegistrado),
                Some(u) => if rol_satisface(u.rol, rol_requerido) {
                    Ok(())
                } else {
                    Err(SistemaError::NoEsRolCorrecto)
                },
            }),
    {
        let indice = match self.buscar_usuario(&usuario) {
            Some(i) => i,
            None => {
                return Err(SistemaError::UsuarioNoRegistrado);
            },
        };
        proof {
            lema_indice_usuario(self@.usuarios, usuario, indice as int);
        }
        match (self.usuarios[indice].rol, rol_requerido) {
            (RolUsuario::Comprador, RolUsuario::Comprador) => Ok(()),
            (RolUsuario::Vendedor, RolUsuario::Vendedor) => Ok(()),
            (RolUsuario::Ambos, _) => Ok(()),
            _ => Err(SistemaError::NoEsRolCorrecto),
        }
    }

    /// Exige que el cambio de rol pedido este en la tabla de cambios
    /// permitidos.
    fn verificar_puede_cambiar_rol(&self, usuario: AccountId, rol_solicitado: RolUsuario) -> (r:
        Result<(), SistemaError>)
        requires
            direcciones_unicas(self@.usuarios),
        ensures
            r == (match usuario_de(self@.usuarios, usuario) {
                None => Err::<(), SistemaError>(SistemaError::UsuarioNoRegistrado),
                Some(u) => if cambio_rol_permitido(u.rol, rol_solicitado) {
                    Ok(())
                } else {
                    Err(SistemaError::NoEsRolCorrecto)
                },
            }),
    {
        let indice = match self.buscar_usuario(&usuario) {
            Some(i) => i,
            None => {
                return Err(SistemaError::UsuarioNoRegistrado);
            },
        };
        proof {
            lema_indice_usuario(self@.usuarios, usuario, indice as int);
        }
        match (self.usuarios[indice].rol, rol_solicitado) {
            (RolUsuario::Vendedor, RolUsuario::Comprador) => Ok(()),
            (RolUsuario::Comprador, RolUsuario::Vendedor) => Ok(()),
            (RolUsuario::Ambos, RolUsuario::Comprador) => Ok(()),
            (RolUsuario::Ambos, RolUsuario::Vendedor) => Ok(()),
            _ => Err(SistemaError::NoEsRolCorrecto),
        }
    }

    /// Exige que `usuario` pueda crear ordenes: `Comprador` o `Ambos`.
    fn verificar_puede_comprar(&self, usuario: AccountId) -> (r: Result<(), SistemaError>)
        requires
            direcciones_unicas(self@.usuarios),
        ensures
            r == (match usuario_de(self@.usuarios, usuario) {
                None => Err::<(), SistemaError>(SistemaError::UsuarioNoRegistrado),
                Some(u) => if puede_comprar(u.rol) {
                    Ok(())
                } else {
                    Err(SistemaError::NoEsRolCorrecto)
                },
            }),
    {
        let indice = match self.buscar_usuario(&usuario) {
            Some(i) => i,
            None => {
                return Err(SistemaError::UsuarioNoRegistrado);
            },
        };
        proof {
            lema_indice_usuario(self@.usuarios, usuario, indice as int);
        }
        match self.usuarios[indice].rol {
            RolUsuario::Comprador | RolUsuario::Ambos => Ok(()),
            RolUsuario::Vendedor => Err(SistemaError::NoEsRolCorrecto),
        }
    }

    /// Exige una cantidad positiva.
    fn verificar_cantidad(&self, cantidad: u32) -> (r: Result<(), SistemaError>)
        ensures
            r == if cantidad == 0 {
                Err::<(), SistemaError>(SistemaError::CantidadInsuficiente)
            } else {
                Ok(())
            },
    {
        if cantidad == 0 {
            Err(SistemaError::CantidadInsuficiente)
        } else {
            Ok(())
        }
    }

    /// Exige stock suficiente en `producto` para la cantidad pedida.
    fn verificar_stock_disponible(&self, producto: &Producto, cantidad_solicitada: u32) -> (r:
        Result<(), SistemaError>)
        ensures
            r == if producto.cantidad < cantidad_solicitada {
                Err::<(), SistemaError>(SistemaError::StockInsuficiente)
            } else {
                Ok(())
            },
    {
        if producto.cantidad < cantidad_solicitada {
            Err(SistemaError::StockInsuficiente)
        } else {
            Ok(())
        }
    }

    /// Registro de la cuenta `usuario`, si existe.
    pub fn obtener_usuario(&self, usuario: AccountId) -> (r: Option<Usuario>)
        requires
            invariante(self@),
        ensures
            r == usuario_de(self@.usuarios, usuario),
    {
        match self.buscar_usuario(&usuario) {
            Some(i) => {
                proof {
                    lema_indice_usuario(self@.usuarios, usuario, i as int);
                }
                Some(self.usuarios[i])
            },
            None => None,
        }
    }

    /// Cambia el rol de `llamador` segun la tabla de cambios
    /// permitidos y, en exito, emite la notificacion `RolActualizado`
    /// con el rol anterior y el nuevo.
    ///
    /// # Errores
    /// - `UsuarioNoRegistrado` si el llamador no tiene registro.
    /// - `NoEsRolCorrecto` si el cambio pedido no esta en la tabla.
    pub fn modificar_rol_usuario(&mut self, llamador: AccountId, nuevo_rol: RolUsuario) -> (r:
        Result<(), SistemaError>)
        requires
            invariante(old(self)@),
        ensures
            invariante(final(self)@),
            final(self)@ == modificar_rol_spec(old(self)@, llamador, nuevo_rol).0,
            r == modificar_rol_spec(old(self)@, llamador, nuevo_rol).1,
            r is Ok ==> (usuario_de(old(self)@.usuarios, llamador) matches Some(u)
                && usuario_de(final(self)@.usuarios, llamador) == Some(
                Usuario { rol: nuevo_rol, ..u },
            )),
            forall|q: AccountId|
                q != llamador ==> usuario_de(final(self)@.usuarios, q) == usuario_de(
                    old(self)@.usuarios,
                    q,
                ),
    {
        proof {
            lema_modificar_rol_preserva_invariante(old(self)@, llamador, nuevo_rol);
        }
        match self.verificar_registro(llamador) {
            Err(e) => return Err(e),
            Ok(()) => {},
        }
        match self.verificar_puede_cambiar_rol(llamador, nuevo_rol) {
            Err(e) => return Err(e),
            Ok(()) => {},
        }
        let indice = match self.buscar_usuario(&llamador) {
            Some(i) => i,
            None => {
                return Err(SistemaError::UsuarioNoRegistrado);
            },
        };
        proof {
            lema_indice_usuario(self@.usuarios, llamador, indice as int);
        }
        let usuario = self.usuarios[indice];
        let rol_anterior = usuario.rol;
        self.usuarios[indice] = Usuario { rol: nuevo_rol, ..usuario };
        self.eventos.push(
            RolActualizado { cuenta: llamador, rol_anterior, rol_nuevo: nuevo_rol },
        );
        proof {
            assert(self@ =~= modificar_rol_spec(old(self)@, llamador, nuevo_rol).0);
            lema_usuario_de_actualizar(
                old(self)@.usuarios,
                indice as int,
                Usuario { rol: nuevo_rol, ..usuario },
            );
        }
        Ok(())
    }

    /// Agrega un producto al catalogo con el proximo identificador
    /// secuencial y devuelve ese identificador.
    fn agregar_producto(
        &mut self,
        nombre: String,
        descripcion: String,
        precio: Balance,
        cantidad: u32,
        categoria: String,
        vendedor: AccountId,
    ) -> (r: Result<u32, SistemaError>)
        requires
            old(self)@.productos.len() < u32::MAX,
        ensures
            final(self)@ == (VistaMercado {
                productos: old(self)@.productos.push(
                    Producto {
                        id: old(self)@.productos.len() as u32,
                        nombre,
                        descripcion,
                        precio,
                        cantidad,
                        categoria,
                        vendedor,
                    },
                ),
                publicado: old(self)@.publicado.push(cantidad),
                ..old(self)@
            }),
            r == Ok::<u32, SistemaError>(old(self)@.productos.len() as u32),
    {
        let id = self.productos.len() as u32;
        let nuevo = Producto::new(id, nombre, descripcion, precio, cantidad, categoria, vendedor);
        self.productos.push(nuevo);
        self.publicado = Ghost(self.publicado@.push(cantidad));
        proof {
            assert(self@ =~= (VistaMercado {
                productos: old(self)@.productos.push(
                    Producto {
                        id: old(self)@.productos.len() as u32,
                        nombre,
                        descripcion,
                        precio,
                        cantidad,
                        categoria,
                        vendedor,
                    },
                ),
                publicado: old(self)@.publicado.push(cantidad),
                ..old(self)@
            }));
        }
        Ok(id)
    }

    /// Publica un producto a nombre de `llamador` y devuelve su
    /// identificador secuencial.
    ///
    /// # Errores
    /// - `UsuarioNoRegistrado` si el llamador no tiene registro.
    /// - `NoEsRolCorrecto` si su rol no es `Vendedor` ni `Ambos`.
    /// - `CantidadInsuficiente` si la cantidad es cero.
    pub fn publicar_producto(
        &mut self,
        llamador: AccountId,
        nombre: String,
        descripcion: String,
        precio: Balance,
        cantidad: u32,
        categoria: String,
    ) -> (r: Result<u32, SistemaError>)
        requires
            invariante(old(self)@),
            old(self)@.productos.len() < u32::MAX,
        ensures
            invariante(final(self)@),
            final(self)@ == publicar_spec(
                old(self)@,
                llamador,
                nombre,
                descripcion,
                precio,
                cantidad,
                categoria,
            ).0,
            r == publicar_spec(
                old(self)@,
                llamador,
                nombre,
                descripcion,
                precio,
                cantidad,
                categoria,
            ).1,
    {
        proof {
            lema_publicar_preserva_invariante(
                old(self)@,
                llamador,
                nombre,
                descripcion,
                precio,
                cantidad,
                categoria,
            );
        }
        match self.verificar_registro(llamador) {
            Err(e) => return Err(e),
            Ok(()) => {},
        }
        match self.verificar_rol(llamador, RolUsuario::Vendedor) {
            Err(e) => return Err(e),
            Ok(()) => {},
        }
        match self.verificar_cantidad(cantidad) {
            Err(e) => return Err(e),
            Ok(()) => {},
        }
        self.agregar_producto(nombre, descripcion, precio, cantidad, categoria, llamador)
    }

    /// Productos publicados por `vendedor`, en orden de publicacion.
    fn filtrar_productos(&self, vendedor: &AccountId) -> (r: Vec<Producto>)
        ensures
            r@ == productos_de(self@.productos, *vendedor),
    {
        let mut lista: Vec<Producto> = Vec::new();
        let mut i: usize = 0;
        proof {
            assert(self.productos@.subrange(0, 0) =~= Seq::<Producto>::empty());
        }
        while i < self.productos.len()
            invariant
                i <= self.productos.len(),
                lista@ == productos_de(self.productos@.subrange(0, i as int), *vendedor),
            decreases self.productos.len() - i,
        {
            proof {
                assert(self.productos@.subrange(0, i + 1) =~= self.productos@.subrange(
                    0,
                    i as int,
                ).push(self.productos@[i as int]));
                lema_productos_de_agregar(
                    self.productos@.subrange(0, i as int),
                    self.productos@[i as int],
                    *vendedor,
                );
            }
            if misma_cuenta(&self.productos[i].vendedor, vendedor) {
                lista.push(self.productos[i].clone());
            }
            i += 1;
        }
        proof {
            assert(self.productos@.subrange(0, self.productos@.len() as int) =~= self.productos@);
        }
        lista
    }

    /// Lista los productos del propio `llamador`, que debe estar
    /// registrado con rol `Vendedor` o `Ambos`.
    ///
    /// # Errores
    /// - `UsuarioNoRegistrado` si el llamador no tiene registro.
    /// - `NoEsRolCorrecto` si su rol no es `Vendedor` ni `Ambos`.
    /// - `ProductosVacios` si no publico ningun producto.
    pub fn listar_mis_productos(&self, llamador: AccountId) -> (r: Result<
        Vec<Producto>,
        SistemaError,
    >)
        requires
            invariante(self@),
        ensures
            match r {
                Ok(lista) => listar_spec(self@, llamador) matches Ok(s) && lista@ == s,
                Err(e) => listar_spec(self@, llamador) matches Err(e2) && e == e2,
            },
    {
        self.listar_productos_interno(llamador)
    }

    /// Valida que `vendedor` exista con rol de venta y devuelve su
    /// lista de productos, o el error que corresponda.
    pub fn listar_productos_interno(&self, vendedor: AccountId) -> (r: Result<
        Vec<Producto>,
        SistemaError,
    >)
        requires
            invariante(self@),
        ensures
            match r {
                Ok(lista) => listar_spec(self@, vendedor) matches Ok(s) && lista@ == s,
                Err(e) => listar_spec(self@, vendedor) matches Err(e2) && e == e2,
            },
    {
        match self.verificar_rol(vendedor, RolUsuario::Vendedor) {
            Err(e) => return Err(e),
            Ok(()) => {},
        }
        let productos_vendedor = self.filtrar_productos(&vendedor);
        if productos_vendedor.len() == 0 {
            return Err(SistemaError::ProductosVacios);
        }
        Ok(productos_vendedor)
    }

    /// Lista los productos de un vendedor cualquiera; el vendedor
    /// consultado debe estar registrado con rol `Vendedor` o `Ambos`.
    ///
    /// # Errores
    /// - `UsuarioNoRegistrado` si ese vendedor no tiene registro.
    /// - `NoEsRolCorrecto` si su rol no es `Vendedor` ni `Ambos`.
    /// - `ProductosVacios` si no publico ningun producto.
    pub fn listar_productos_por_vendedor(&self, vendedor: AccountId) -> (r: Result<
        Vec<Producto>,
        SistemaError,
    >)
        requires
            invariante(self@),
        ensures
            match r {
                Ok(lista) => listar_spec(self@, vendedor) matches Ok(s) && lista@ == s,
                Err(e) => listar_spec(self@, vendedor) matches Err(e2) && e == e2,
            },
    {
        self.listar_productos_por_vendedor_interno(vendedor)
    }

    /// Nucleo de `listar_productos_por_vendedor`: los mismos controles
    /// y la misma lista que `listar_productos_interno`.
    pub fn listar_productos_por_vendedor_interno(&self, vendedor: AccountId) -> (r: Result<
        Vec<Producto>,
        SistemaError,
    >)
        requires
            invariante(self@),
        ensures
            match r {
                Ok(lista) => listar_spec(self@, vendedor) matches Ok(s) && lista@ == s,
                Err(e) => listar_spec(self@, vendedor) matches Err(e2) && e == e2,
            },
    {
        self.listar_productos_interno(vendedor)
    }

    /// Crea y guarda una orden nueva sobre el producto dado y devuelve
    /// su identificador secuencial.
    fn crear_y_emitir_orden(
        &mut self,
        comprador: AccountId,
        vendedor: AccountId,
        producto_id: u32,
        cantidad: u32,
    ) -> (r: Result<u32, SistemaError>)
        requires
            old(self)@.ordenes.len() < u32::MAX,
        ensures
            final(self)@ == (VistaMercado {
                ordenes: old(self)@.ordenes.push(
                    Orden {
                        id: old(self)@.ordenes.len() as u32,
                        comprador,
                        vendedor,
                        producto_id,
                        cantidad,
                        estado: EstadoOrden::Pendiente,
                        comprador_califico: false,
                        vendedor_califico: false,
                    },
                ),
                ..old(self)@
            }),
            r == Ok::<u32, SistemaError>(old(self)@.ordenes.len() as u32),
    {
        let id = self.ordenes.len() as u32;
        let nueva_orden = Orden::new(id, comprador, vendedor, producto_id, cantidad);
        self.ordenes.push(nueva_orden);
        proof {
            assert(self@ =~= (VistaMercado {
                ordenes: old(self)@.ordenes.push(
                    Orden {
                        id: old(self)@.ordenes.len() as u32,
                        comprador,
                        vendedor,
                        producto_id,
                        cantidad,
                        estado: EstadoOrden::Pendiente,
                        comprador_califico: false,
                        vendedor_califico: false,
                    },
                ),
                ..old(self)@
            }));
        }
        Ok(id)
    }

    /// Crea una orden de compra de `llamador` sobre un producto: en un
    /// unico paso descuenta el stock y agrega la orden `Pendiente`, y
    /// devuelve el identificador de la orden. Toda validacion ocurre
    /// antes de cualquier mutacion: una llamada rechazada deja el
    /// estado intacto.
    ///
    /// # Errores
    /// - `UsuarioNoRegistrado` si el llamador no tiene registro.
    /// - `NoEsRolCorrecto` si su rol no es `Comprador` ni `Ambos`.
    /// - `CantidadInsuficiente` si la cantidad es cero.
    /// - `ProductosVacios` si el producto no existe.
    /// - `StockInsuficiente` si pide mas que el stock disponible.
    pub fn crear_orden(&mut self, llamador: AccountId, producto_id: u32, cantidad: u32) -> (r:
        Result<u32, SistemaError>)
        requires
            invariante(old(self)@),
            old(self)@.ordenes.len() < u32::MAX,
        ensures
            invariante(final(self)@),
            final(self)@ == crear_orden_spec(old(self)@, llamador, producto_id, cantidad).0,
            r == crear_orden_spec(old(self)@, llamador, producto_id, cantidad).1,
    {
        proof {
            lema_crear_orden_preserva_invariante(old(self)@, llamador, producto_id, cantidad);
        }
        match self.verificar_registro(llamador) {
            Err(e) => return Err(e),
            Ok(()) => {},
        }
        match self.verificar_puede_comprar(llamador) {
            Err(e) => return Err(e),
            Ok(()) => {},
        }
        match self.verificar_cantidad(cantidad) {
            Err(e) => return Err(e),
            Ok(()) => {},
        }
        if producto_id as usize >= self.productos.len() {
            return Err(SistemaError::ProductosVacios);
        }
        let indice_producto = producto_id as usize;
        match self.verificar_stock_disponible(&self.productos[indice_producto], cantidad) {
            Err(e) => return Err(e),
            Ok(()) => {},
        }
        let vendedor = self.productos[indice_producto].vendedor;
        let restante = self.productos[indice_producto].cantidad - cantidad;
        self.productos[indice_producto].cantidad = restante;
        let r = self.crear_y_emitir_orden(llamador, vendedor, producto_id, cantidad);
        proof {
            assert(self@ =~= crear_orden_spec(old(self)@, llamador, producto_id, cantidad).0);
        }
        r
    }

    /// Lleva la orden `orden_id` al estado `nuevo_estado`, con el
    /// control de actor sobre el estado actual y el de transicion.
    fn actualizar_estado_orden(
        &mut self,
        llamador: AccountId,
        orden_id: u32,
        nuevo_estado: EstadoOrden,
    ) -> (r: Result<(), SistemaError>)
        requires
            invariante(old(self)@),
        ensures
            invariante(final(self)@),
            final(self)@ == actualizar_estado_spec(old(self)@, llamador, orden_id, nuevo_estado).0,
            r == actualizar_estado_spec(old(self)@, llamador, orden_id, nuevo_estado).1,
    {
        proof {
            lema_actualizar_estado_preserva_invariante(old(self)@, llamador, orden_id, nuevo_estado);
        }
        match self.verificar_registro(llamador) {
            Err(e) => return Err(e),
            Ok(()) => {},
        }
        if orden_id as usize >= self.ordenes.len() {
            return Err(SistemaError::OrdenNoExiste);
        }
        let indice_orden = orden_id as usize;
        match self.verificar_permiso_orden(llamador, &self.ordenes[indice_orden], &nuevo_estado) {
            Err(e) => return Err(e),
            Ok(()) => {},
        }
        self.ordenes[indice_orden].estado = nuevo_estado;
        proof {
            assert(self@ =~= actualizar_estado_spec(
                old(self)@,
                llamador,
                orden_id,
                nuevo_estado,
            ).0);
        }
        Ok(())
    }

    /// Marca una orden como enviada; solo puede hacerlo el vendedor de
    /// esa orden, y solo desde `Pendiente`.
    ///
    /// # Errores
    /// - `UsuarioNoRegistrado` si el llamador no tiene registro.
    /// - `OrdenNoExiste` si el identificador no corresponde a una orden.
    /// - `NoEsRolCorrecto` si el llamador no es el vendedor de la orden.
    /// - `EstadoInvalido` si la orden no esta `Pendiente`.
    pub fn marcar_orden_como_enviada(&mut self, llamador: AccountId, orden_id: u32) -> (r: Result<
        (),
        SistemaError,
    >)
        requires
            invariante(old(self)@),
        ensures
            invariante(final(self)@),
            final(self)@ == actualizar_estado_spec(
                old(self)@,
                llamador,
                orden_id,
                EstadoOrden::Enviada,
            ).0,
            r == actualizar_estado_spec(old(self)@, llamador, orden_id, EstadoOrden::Enviada).1,
    {
        self.actualizar_estado_orden(llamador, orden_id, EstadoOrden::Enviada)
    }

    /// Marca una orden como recibida; solo puede hacerlo el comprador
    /// de esa orden, y solo desde `Enviada`.
    ///
    /// # Errores
    /// - `UsuarioNoRegistrado` si el llamador no tiene registro.
    /// - `OrdenNoExiste` si el identificador no corresponde a una orden.
    /// - `NoEsRolCorrecto` si el llamador no es el comprador de la orden.
    /// - `EstadoInvalido` si la orden no esta `Enviada`.
    pub fn marcar_como_recibida(&mut self, llamador: AccountId, orden_id: u32) -> (r: Result<
        (),
        SistemaError,
    >)
        requires
            invariante(old(self)@),
        ensures
            invariante(final(self)@),
            final(self)@ == actualizar_estado_spec(
                old(self)@,
                llamador,
                orden_id,
                EstadoOrden::Recibida,
            ).0,
            r == actualizar_estado_spec(old(self)@, llamador, orden_id, EstadoOrden::Recibida).1,
    {
        self.actualizar_estado_orden(llamador, orden_id, EstadoOrden::Recibida)
    }

    /// Exige que `llamador` sea el actor autorizado para llevar la
    /// orden a `nuevo_estado`, y que la transicion desde el estado
    /// actual sea valida; el control de actor se evalua primero.
    fn verificar_permiso_orden(
        &self,
        llamador: AccountId,
        orden: &Orden,
        nuevo_estado: &EstadoOrden,
    ) -> (r: Result<(), SistemaError>)
        ensures
            r == if !actor_autorizado(*orden, llamador, *nuevo_estado) {
                Err::<(), SistemaError>(SistemaError::NoEsRolCorrecto)
            } else if !transicion_valida(orden.estado, *nuevo_estado) {
                Err::<(), SistemaError>(SistemaError::EstadoInvalido)
            } else {
                Ok::<(), SistemaError>(())
            },
    {
        match nuevo_estado {
            EstadoOrden::Enviada => {
                if !misma_cuenta(&llamador, &orden.vendedor) {
                    return Err(SistemaError::NoEsRolCorrecto);
                }
            },
            EstadoOrden::Recibida => {
                if !misma_cuenta(&llamador, &orden.comprador) {
                    return Err(SistemaError::NoEsRolCorrecto);
                }
            },
            _ => {},
        }
        self.verificar_transicion_estado(&orden.estado, nuevo_estado)
    }

    /// Exige que la transicion de estado pedida sea una arista del
    /// ciclo de vida de una orden.
    fn verificar_transicion_estado(&self, actual: &EstadoOrden, nuevo: &EstadoOrden) -> (r: Result<
        (),
        SistemaError,
    >)
        ensures
            r == if transicion_valida(*actual, *nuevo) {
                Ok::<(), SistemaError>(())
            } else {
                Err::<(), SistemaError>(SistemaError::EstadoInvalido)
            },
    {
        match (actual, nuevo) {
            (EstadoOrden::Pendiente, EstadoOrden::Enviada) => Ok(()),
            (EstadoOrden::Enviada, EstadoOrden::Recibida) => Ok(()),
            _ => Err(SistemaError::EstadoInvalido),
        }
    }

    /// Cantidad de usuarios registrados.
    pub fn cantidad_usuarios(&self) -> (n: usize)
        ensures
            n == self@.usuarios.len(),
    {
        self.usuarios.len()
    }

    /// Cantidad de productos publicados.
    pub fn cantidad_productos(&self) -> (n: usize)
        ensures
            n == self@.productos.len(),
    {
        self.productos.len()
    }

    /// Producto con el identificador dado.
    ///
    /// # Errores
    /// - `ProductosVacios` si el identificador no corresponde a un
    ///   producto.
    pub fn obtener_producto(&self, id: u32) -> (r: Result<Producto, SistemaError>)
        ensures
            r == if (id as int) < self@.productos.len() {
                Ok::<Producto, SistemaError>(self@.productos[id as int])
            } else {
                Err(SistemaError::ProductosVacios)
            },
    {
        if (id as usize) < self.productos.len() {
            Ok(self.productos[id as usize].clone())
        } else {
            Err(SistemaError::ProductosVacios)
        }
    }

    /// Cantidad de ordenes creadas.
    pub fn cantidad_ordenes(&self) -> (n: usize)
        ensures
            n == self@.ordenes.len(),
    {
        self.ordenes.len()
    }

    /// Orden con el identificador dado.
    ///
    /// # Errores
    /// - `OrdenNoExiste` si el identificador no corresponde a una
    ///   orden.
    pub fn obtener_orden(&self, id: u32) -> (r: Result<Orden, SistemaError>)
        ensures
            r == if (id as int) < self@.ordenes.len() {
                Ok::<Orden, SistemaError>(self@.ordenes[id as int])
            } else {
                Err(SistemaError::OrdenNoExiste)
            },
    {
        if (id as usize) < self.ordenes.len() {
            Ok(self.ordenes[id as usize])
        } else {
            Err(SistemaError::OrdenNoExiste)
        }
    }

    /// Cantidad de notificaciones de cambio de rol emitidas.
    pub fn cantidad_eventos(&self) -> (n: usize)
        ensures
            n == self@.eventos.len(),
    {
        self.eventos.len()
    }

    /// Notificacion emitida en la posicion `indice`, si existe.
    pub fn obtener_evento(&self, indice: usize) -> (r: Option<RolActualizado>)
        ensures
            r == if (indice as int) < self@.eventos.len() {
                Some(self@.eventos[indice as int])
            } else {
                None::<RolActualizado>
            },
    {
        if indice < self.eventos.len() {
            Some(self.eventos[indice])
        } else {
            None
        }
    }
}

} // verus!
