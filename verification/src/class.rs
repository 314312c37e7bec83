//! Window classes and their registration.
//!
//! Names are sequences of UTF-16 code units. They are taken without a
//! terminator, and stored with one.

use crate::error::Error;
use crate::handle::Handle;
use vstd::prelude::*;

verus! {

/// `units` with the terminating zero that the native subsystem reads up to.
pub open spec fn terminated(units: Seq<u16>) -> Seq<u16> {
    units.push(0u16)
}

/// `units` with a terminating zero appended.
pub fn terminate(units: Vec<u16>) -> (wide: Vec<u16>)
    ensures
        wide@ == terminated(units@),
{
    let mut wide = units;
    wide.push(0u16);
    wide
}

/// An optional string for the native subsystem: nothing for an empty slice,
/// which stands for a null pointer, and the slice itself otherwise.
pub fn pointer_or_null(slice: &[u16]) -> (pointer: Option<&[u16]>)
    ensures
        slice@.len() == 0 ==> pointer is None,
        slice@.len() > 0 ==> pointer == Some(slice),
{
    if slice.len() == 0 {
        None
    } else {
        Some(slice)
    }
}

/// A window class.
#[derive(Clone, Debug, PartialEq, Eq)]
pub enum WindowClass {
    /// A class by the atom that its registration returned.
    Atom(u16),
    /// A class by its name, terminated.
    Name(Vec<u16>),
}

/// What a [`WindowClass`] is, as plain values.
pub enum ClassView {
    /// A class by its atom.
    Atom(u16),
    /// A class by its name, terminated.
    Name(Seq<u16>),
}

/// A window class as the native creation call takes it.
pub enum ClassPointer<'a> {
    /// The class's atom, as the low word of a pointer-sized value.
    Word(usize),
    /// The class's name, terminated.
    Units(&'a [u16]),
}

impl View for WindowClass {
    type V = ClassView;

    open spec fn view(&self) -> ClassView {
        match self {
            WindowClass::Atom(atom) => ClassView::Atom(*atom),
            WindowClass::Name(name) => ClassView::Name(name@),
        }
    }
}

/// The settings of a class that is to be registered, as plain values.
pub struct ClassConfig {
    /// The class style bits.
    pub style: u32,
    /// The number of extra bytes wanted in each window of the class.
    pub wnd_extra: i32,
    /// The module instance that owns the class.
    pub instance: Handle,
    /// The class icon.
    pub icon: Handle,
    /// The class cursor.
    pub cursor: Handle,
    /// The background brush.
    pub background: Handle,
    /// The resource name of the class menu, terminated; empty for none.
    pub menu_name: Seq<u16>,
    /// The class name, terminated.
    pub class_name: Seq<u16>,
    /// The small class icon.
    pub small_icon: Handle,
}

impl ClassConfig {
    /// The settings of a class of which only the name has been given.
    pub open spec fn named(class_name: Seq<u16>) -> ClassConfig {
        ClassConfig {
            style: 0,
            wnd_extra: 0,
            instance: Handle { raw: 0 },
            icon: Handle { raw: 0 },
            cursor: Handle { raw: 0 },
            background: Handle { raw: 0 },
            menu_name: Seq::empty(),
            class_name: terminated(class_name),
            small_icon: Handle { raw: 0 },
        }
    }
}

/// The fields of the native registration call, but for the size of the
/// record and the address of the trampoline, which only the caller of the
/// native subsystem has.
pub struct ClassRegistration<'a> {
    /// The class style bits.
    pub style: u32,
    /// The number of extra bytes after the class record: none.
    pub cls_extra: i32,
    /// The number of extra bytes after each window of the class: none.
    pub wnd_extra: i32,
    /// The module instance that owns the class.
    pub instance: Handle,
    /// The class icon.
    pub icon: Handle,
    /// The class cursor.
    pub cursor: Handle,
    /// The background brush.
    pub background: Handle,
    /// The resource name of the class menu, or nothing for a null pointer.
    pub menu_name: Option<&'a [u16]>,
    /// The class name, terminated.
    pub class_name: &'a [u16],
    /// The small class icon.
    pub small_icon: Handle,
}

/// A builder for registering a new window class.
pub struct WindowClassBuilder {
    style: u32,
    wnd_extra: i32,
    instance: Handle,
    icon: Handle,
    cursor: Handle,
    background: Handle,
    menu_name: Vec<u16>,
    class_name: Vec<u16>,
    small_icon: Handle,
}

impl View for WindowClassBuilder {
    type V = ClassConfig;

    closed spec fn view(&self) -> ClassConfig {
        ClassConfig {
            style: self.style,
            wnd_extra: self.wnd_extra,
            instance: self.instance,
            icon: self.icon,
            cursor: self.cursor,
            background: self.background,
            menu_name: self.menu_name@,
            class_name: self.class_name@,
            small_icon: self.small_icon,
        }
    }
}

impl WindowClass {
    /// A builder for a new window class of this name.
    ///
    /// The name should be unique, or the registration will fail.
    pub fn builder(class_name: Vec<u16>) -> (builder: WindowClassBuilder)
        ensures
            builder@ == ClassConfig::named(class_name@),
    {
        WindowClassBuilder {
            class_name: terminate(class_name),
            style: 0,
            wnd_extra: 0,
            instance: Handle::null(),
            icon: Handle::null(),
            cursor: Handle::null(),
            background: Handle::null(),
            menu_name: Vec::new(),
            small_icon: Handle::null(),
        }
    }

    /// A reference to the class of this name, which has been registered
    /// already, through a builder or by other means.
    pub fn from_name(class_name: Vec<u16>) -> (class: WindowClass)
        ensures
            class@ == ClassView::Name(terminated(class_name@)),
    {
        WindowClass::Name(terminate(class_name))
    }
}

impl WindowClass {
    /// The class as the native creation call takes it: an atom widened to
    /// the size of a pointer, or the units of a name.
    pub fn as_lpcwstr(&self) -> (pointer: ClassPointer<'_>)
        ensures
            match self@ {
                ClassView::Atom(atom) => pointer matches ClassPointer::Word(word) && word == atom,
                ClassView::Name(name) => pointer matches ClassPointer::Units(units) && units@
                    == name,
            },
    {
        match self {
            WindowClass::Atom(atom) => ClassPointer::Word(*atom as usize),
            WindowClass::Name(name) => ClassPointer::Units(name.as_slice()),
        }
    }
}

impl WindowClassBuilder {
    /// The number of extra bytes that a dialog needs in its windows.
    pub const DLGWINDOWEXTRA: i32 = 30;

    /// What to hand to the native registration call.
    ///
    /// No extra bytes are asked for, whatever was set. The menu name is
    /// handed over only where one was set.
    pub fn registration(&self) -> (registration: ClassRegistration<'_>)
        ensures
            registration.style == self@.style,
            registration.cls_extra == 0,
            registration.wnd_extra == 0,
            registration.instance == self@.instance,
            registration.icon == self@.icon,
            registration.cursor == self@.cursor,
            registration.background == self@.background,
            self@.menu_name.len() == 0 ==> registration.menu_name is None,
            self@.menu_name.len() > 0 ==> (registration.menu_name matches Some(name) && name@
                == self@.menu_name),
            registration.class_name@ == self@.class_name,
            registration.small_icon == self@.small_icon,
    {
        ClassRegistration {
            style: self.style,
            cls_extra: 0,
            wnd_extra: 0,
            instance: self.instance,
            icon: self.icon,
            cursor: self.cursor,
            background: self.background,
            menu_name: pointer_or_null(self.menu_name.as_slice()),
            class_name: self.class_name.as_slice(),
            small_icon: self.small_icon,
        }
    }

    /// Makes the window class from what the native registration call
    /// returned: the class's atom, or zero where the registration failed.
    pub fn build(self, atom: u16) -> (outcome: Result<WindowClass, Error>)
        ensures
            atom == 0 ==> outcome == Err::<WindowClass, Error>(Error::RegisterClassFailed),
            atom != 0 ==> outcome == Ok::<WindowClass, Error>(WindowClass::Atom(atom)),
    {
        if atom == 0 {
            Err(Error::RegisterClassFailed)
        } else {
            Ok(WindowClass::Atom(atom))
        }
    }

    /// Sets the class style: the bitwise or of class style bits.
    pub fn class_style(self, style: u32) -> (builder: Self)
        ensures
            builder@ == (ClassConfig { style, ..self@ }),
    {
        let mut builder = self;
        builder.style = style;
        builder
    }

    /// Records the number of extra bytes wanted in each window of the class.
    /// [`WindowClassBuilder::registration`] does not pass it on.
    pub fn wnd_extra_bytes(self, extra_bytes: i32) -> (builder: Self)
        ensures
            builder@ == (ClassConfig { wnd_extra: extra_bytes, ..self@ }),
    {
        let mut builder = self;
        builder.wnd_extra = extra_bytes;
        builder
    }

    /// Sets the module instance that owns the class.
    pub fn instance(self, instance: Handle) -> (builder: Self)
        ensures
            builder@ == (ClassConfig { instance, ..self@ }),
    {
        let mut builder = self;
        builder.instance = instance;
        builder
    }

    /// Sets the class icon.
    pub fn icon(self, icon: Handle) -> (builder: Self)
        ensures
            builder@ == (ClassConfig { icon, ..self@ }),
    {
        let mut builder = self;
        builder.icon = icon;
        builder
    }

    /// Sets the small class icon.
    pub fn small_icon(self, icon: Handle) -> (builder: Self)
        ensures
            builder@ == (ClassConfig { small_icon: icon, ..self@ }),
    {
        let mut builder = self;
        builder.small_icon = icon;
        builder
    }

    /// Sets the class cursor.
    pub fn cursor(self, cursor: Handle) -> (builder: Self)
        ensures
            builder@ == (ClassConfig { cursor, ..self@ }),
    {
        let mut builder = self;
        builder.cursor = cursor;
        builder
    }

    /// Sets the background brush.
    pub fn background(self, brush: Handle) -> (builder: Self)
        ensures
            builder@ == (ClassConfig { background: brush, ..self@ }),
    {
        let mut builder = self;
        builder.background = brush;
        builder
    }

    /// Sets the class menu, by the name of its resource.
    pub fn menu_name(self, menu_name: Vec<u16>) -> (builder: Self)
        ensures
            builder@ == (ClassConfig { menu_name: terminated(menu_name@), ..self@ }),
    {
        let mut builder = self;
        builder.menu_name = terminate(menu_name);
        builder
    }
}

} // verus!
