//! The construction of windows.
//!
//! A [`WindowBuilder`] collects what the native creation call takes. Building
//! it parts the settings, which go to the native call, from the window's
//! [`Binding`], which the trampoline works on from the first event that the
//! native call delivers, and which takes the call's outcome when it returns.

use crate::binding::{Binding, WindowProc};
use crate::class::{pointer_or_null, terminate, terminated, ClassView, WindowClass};
use crate::handle::Handle;
use crate::protocol::Protocol;
use vstd::prelude::*;

verus! {

/// The position or extent that leaves the choice to the native subsystem.
pub const CW_USEDEFAULT: i32 = -2147483648;

/// The settings of a window that is to be created, as plain values.
pub struct WindowConfig {
    /// The extended window style bits.
    pub ex_style: u32,
    /// The window's class.
    pub window_class: ClassView,
    /// The window's name, terminated; empty for none.
    pub window_name: Seq<u16>,
    /// The window style bits.
    pub style: u32,
    /// The horizontal position.
    pub x: i32,
    /// The vertical position.
    pub y: i32,
    /// The width.
    pub width: i32,
    /// The height.
    pub height: i32,
    /// The parent window.
    pub parent: Handle,
    /// The menu.
    pub menu: Handle,
    /// The module instance.
    pub instance: Handle,
}

impl WindowConfig {
    /// The settings of a window of which only the class has been given.
    pub open spec fn of_class(window_class: ClassView) -> WindowConfig {
        WindowConfig {
            ex_style: 0,
            window_class,
            window_name: Seq::empty(),
            style: 0,
            x: CW_USEDEFAULT,
            y: CW_USEDEFAULT,
            width: CW_USEDEFAULT,
            height: CW_USEDEFAULT,
            parent: Handle { raw: 0 },
            menu: Handle { raw: 0 },
            instance: Handle { raw: 0 },
        }
    }
}

/// What the native creation call takes, but for the reference to the
/// callback's ownership cell, which travels as the call's extra data.
pub struct CreateParams<'a> {
    /// The extended window style bits.
    pub ex_style: u32,
    /// The window's class.
    pub window_class: &'a WindowClass,
    /// The window's name, terminated; empty for none.
    pub window_name: Vec<u16>,
    /// The window style bits.
    pub style: u32,
    /// The horizontal position.
    pub x: i32,
    /// The vertical position.
    pub y: i32,
    /// The width.
    pub width: i32,
    /// The height.
    pub height: i32,
    /// The parent window.
    pub parent: Handle,
    /// The menu.
    pub menu: Handle,
    /// The module instance.
    pub instance: Handle,
}

impl<'a> View for CreateParams<'a> {
    type V = WindowConfig;

    open spec fn view(&self) -> WindowConfig {
        WindowConfig {
            ex_style: self.ex_style,
            window_class: self.window_class@,
            window_name: self.window_name@,
            style: self.style,
            x: self.x,
            y: self.y,
            width: self.width,
            height: self.height,
            parent: self.parent,
            menu: self.menu,
            instance: self.instance,
        }
    }
}

impl<'a> CreateParams<'a> {
    /// The window's name as the native call takes it: nothing, which stands
    /// for a null pointer, where no name was set.
    pub fn name(&self) -> (name: Option<&[u16]>)
        ensures
            self@.window_name.len() == 0 ==> name is None,
            self@.window_name.len() > 0 ==> (name matches Some(units) && units@
                == self@.window_name),
    {
        pointer_or_null(self.window_name.as_slice())
    }
}

/// A builder for creating a new window.
pub struct WindowBuilder<'a, P> {
    window_proc: Binding<P>,
    params: CreateParams<'a>,
}

impl<'a, P> View for WindowBuilder<'a, P> {
    type V = WindowConfig;

    closed spec fn view(&self) -> WindowConfig {
        self.params@
    }
}

impl<'a, P> WindowBuilder<'a, P> {
    #[verifier::type_invariant]
    spec fn fresh(self) -> bool {
        self.window_proc.wf() && self.window_proc@ == Protocol::initial()
    }

    /// The callback of the window that is being built.
    pub closed spec fn callback(&self) -> P {
        self.window_proc.instance()
    }
}

impl<'a, P: WindowProc> WindowBuilder<'a, P> {
    /// A builder for a window of the class `window_class`, with
    /// `window_proc` as its callback.
    ///
    /// The callback is wrapped in its ownership cell here.
    pub fn new(window_proc: P, window_class: &'a WindowClass) -> (builder: Self)
        ensures
            builder@ == WindowConfig::of_class(window_class@),
            builder.callback() == window_proc,
    {
        WindowBuilder {
            window_proc: Binding::new(window_proc),
            params: CreateParams {
                ex_style: 0,
                window_class,
                window_name: Vec::new(),
                style: 0,
                x: CW_USEDEFAULT,
                y: CW_USEDEFAULT,
                width: CW_USEDEFAULT,
                height: CW_USEDEFAULT,
                parent: Handle::null(),
                menu: Handle::null(),
                instance: Handle::null(),
            },
        }
    }

    /// Parts the builder into what the native creation call takes and the
    /// bridge of the window that the call is to create.
    ///
    /// The bridge's reference to the callback is on its way to the slot: the
    /// creation event, which the native call delivers before it returns,
    /// binds it. The call's outcome goes to [`Binding::complete`].
    pub fn build(self) -> (parts: (CreateParams<'a>, Binding<P>))
        ensures
            parts.0@ == self@,
            parts.1.wf(),
            parts.1@ == Protocol::initial(),
            parts.1.instance() == self.callback(),
    {
        proof {
            use_type_invariant(&self);
        }
        (self.params, self.window_proc)
    }

    /// Sets the window's name.
    pub fn name(self, name: Vec<u16>) -> (builder: Self)
        ensures
            builder@ == (WindowConfig { window_name: terminated(name@), ..self@ }),
            builder.callback() == self.callback(),
    {
        proof {
            use_type_invariant(&self);
        }
        let mut builder = self;
        builder.params.window_name = terminate(name);
        builder
    }

    /// Sets the window style: the bitwise or of window style bits.
    pub fn style(self, style: u32) -> (builder: Self)
        ensures
            builder@ == (WindowConfig { style, ..self@ }),
            builder.callback() == self.callback(),
    {
        proof {
            use_type_invariant(&self);
        }
        let mut builder = self;
        builder.params.style = style;
        builder
    }

    /// Sets the extended window style: the bitwise or of extended window
    /// style bits.
    pub fn ex_style(self, style: u32) -> (builder: Self)
        ensures
            builder@ == (WindowConfig { ex_style: style, ..self@ }),
            builder.callback() == self.callback(),
    {
        proof {
            use_type_invariant(&self);
        }
        let mut builder = self;
        builder.params.ex_style = style;
        builder
    }

    /// Sets the window's position, in pixels from the top left corner of the
    /// primary monitor. [`CW_USEDEFAULT`] leaves a coordinate unset.
    pub fn position(self, x: i32, y: i32) -> (builder: Self)
        ensures
            builder@ == (WindowConfig { x, y, ..self@ }),
            builder.callback() == self.callback(),
    {
        proof {
            use_type_invariant(&self);
        }
        let mut builder = self;
        builder.params.x = x;
        builder.params.y = y;
        builder
    }

    /// Sets the window's size, in pixels. [`CW_USEDEFAULT`] leaves an extent
    /// unset.
    pub fn size(self, width: i32, height: i32) -> (builder: Self)
        ensures
            builder@ == (WindowConfig { width, height, ..self@ }),
            builder.callback() == self.callback(),
    {
        proof {
            use_type_invariant(&self);
        }
        let mut builder = self;
        builder.params.width = width;
        builder.params.height = height;
        builder
    }

    /// Sets the parent window.
    pub fn parent_hwnd(self, parent: Handle) -> (builder: Self)
        ensures
            builder@ == (WindowConfig { parent, ..self@ }),
            builder.callback() == self.callback(),
    {
        proof {
            use_type_invariant(&self);
        }
        let mut builder = self;
        builder.params.parent = parent;
        builder
    }

    /// Sets the menu.
    pub fn menu(self, menu: Handle) -> (builder: Self)
        ensures
            builder@ == (WindowConfig { menu, ..self@ }),
            builder.callback() == self.callback(),
    {
        proof {
            use_type_invariant(&self);
        }
        let mut builder = self;
        builder.params.menu = menu;
        builder
    }

    /// Sets the module instance.
    pub fn instance(self, instance: Handle) -> (builder: Self)
        ensures
            builder@ == (WindowConfig { instance, ..self@ }),
            builder.callback() == self.callback(),
    {
        proof {
            use_type_invariant(&self);
        }
        let mut builder = self;
        builder.params.instance = instance;
        builder
    }
}

} // verus!
