//! Checks of what the language allows for the kinds of types and traits that
//! thin handles are built from, and of how the handles behave under lifetime
//! variance.
#![allow(dead_code)]

use std::marker::PhantomData;

use thin_trait_object::{GetThinTraitVTable, ThinBox, ThinTrait};

trait ToStringVTable {
    fn dyn_to_string(&self) -> String;
}

impl<T> ToStringVTable for T
where
    T: ToString + ?Sized,
{
    fn dyn_to_string(&self) -> String {
        self.to_string()
    }
}

impl<'a, C> ThinTrait<C> for dyn ToStringVTable + 'a {
    type AutoTraitConfig = ();
}

impl<'a, T: ToString + 'a> GetThinTraitVTable<T> for dyn ToStringVTable + 'a {
    fn erase(x: Box<T>) -> Box<Self> {
        x
    }
}

fn shorten_box<'a>(long: Box<dyn ToString + 'static>, _short: &'a ()) -> Box<dyn ToString + 'a> {
    long
}

fn shorten_thin<'a>(
    long: ThinBox<dyn ToStringVTable + 'static, ()>,
    _short: &'a (),
) -> ThinBox<dyn ToStringVTable + 'a, ()> {
    long
}

#[test]
fn lifetime_variance() {
    let short = ();
    let long = ThinBox::<dyn ToStringVTable, ()>::new(5_u32, ());
    let shortened = shorten_thin(long, &short);
    assert_eq!(ThinBox::as_thin(&shortened).dyn_to_string_through(), "5");
    let b = shorten_box(Box::new(6_u32), &short);
    assert_eq!(b.to_string(), "6");
}

trait DynToStringThrough {
    fn dyn_to_string_through(&self) -> String;
}

impl<'a> DynToStringThrough for thin_trait_object::Thin<dyn ToStringVTable + 'a, ()> {
    fn dyn_to_string_through(&self) -> String {
        thin_trait_object::ThinWithoutCommon::object(thin_trait_object::Thin::without_common(self))
            .dyn_to_string()
    }
}

trait GetBuilder {
    type Builder;
}

struct AliasBuilder {
    a: u32,
    b: bool,
}

impl GetBuilder for () {
    type Builder = AliasBuilder;
}

type ABuilder<T> = <T as GetBuilder>::Builder;

#[test]
fn type_alias_builder() {
    let built = ABuilder::<()> { a: 1, b: false };
    assert_eq!(built.a, 1);
    assert!(!built.b);
}

fn v() {}

struct Builder {
    a: u32,
}

impl Builder {
    fn new() -> Self {
        Self { a: 0 }
    }
    fn a(mut self, a: u32) -> Self {
        self.a = a;
        self
    }
}

struct Builder3<F> {
    a: F,
}

impl Builder3<()> {
    fn new() -> Self {
        Self { a: () }
    }
    fn a<F>(self, a: F) -> Builder3<F> {
        Builder3::<F> { a }
    }
}

#[test]
fn const_builder() {
    let b = Builder::new().a(2);
    assert_eq!(b.a, 2);
    let b3: Builder3<fn()> = Builder3::new().a(v as fn());
    (b3.a)();
}

struct AutoTraitConfigFlags {
    send: bool,
    sync: bool,
}

impl AutoTraitConfigFlags {
    fn encode_info(self) -> usize {
        (self.send as usize) << 1 | (self.sync as usize)
    }
}

trait GetConfig {
    fn config() -> AutoTraitConfigFlags;
}

struct SomeConfiguredVTable;

impl GetConfig for SomeConfiguredVTable {
    fn config() -> AutoTraitConfigFlags {
        AutoTraitConfigFlags { send: false, sync: false }
    }
}

trait ManuallyConfigAsType {
    type ConfigType;
}

impl ManuallyConfigAsType for SomeConfiguredVTable {
    type ConfigType = [(); 1];
}

#[test]
fn const_auto_trait_config() {
    assert_eq!(SomeConfiguredVTable::config().encode_info(), 0);
    assert_eq!(AutoTraitConfigFlags { send: false, sync: true }.encode_info(), 1);
    assert_eq!(mem_len::<<SomeConfiguredVTable as ManuallyConfigAsType>::ConfigType>(), 1);
    println!("{:b}", AutoTraitConfigFlags { send: true, sync: true }.encode_info());
}

fn mem_len<T: Default + AsRef<[()]>>() -> usize {
    T::default().as_ref().len()
}

trait SomeTrait {
    fn test(&self)
    where
        Self: Send;
}

impl SomeTrait for () {
    fn test(&self)
    where
        Self: Send,
    {
    }
}

trait GenericTrait<T> {
    fn test(&self)
    where
        T: Send;
}

impl GenericTrait<()> for () {
    fn test(&self) {}
}

#[test]
fn where_clause_on_trait_object_methods() {
    let _a: &(dyn GenericTrait<()> + Send) = &();
    let _a: &dyn SomeTrait = &();
    let a: &(dyn SomeTrait + Send) = &();
    a.test();
}

trait Www {
    fn consume(self);

    fn other(value: u32)
    where
        Self: Sized;
}

impl Www for () {
    fn consume(self) {}

    fn other(_value: u32)
    where
        Self: Sized,
    {
    }
}

#[test]
fn trait_object_with_consuming_methods() {
    let _w: Box<dyn Www> = Box::new(());
    <() as Www>::other(1);
}

struct WithLife<'a>(fn(&'a mut u32));

#[test]
fn static_lifetime() {
    let vtable: &'static WithLife<'_> = &WithLife(|w| {
        *w = 2;
    });
    let mut value: u32 = 3;
    let f: fn(&mut u32) = |w| {
        *w = 2;
    };
    f(&mut value);
    assert_eq!(value, 2);
    let _ = vtable;
}

trait GetAssocType {
    type Assoc;
}

impl<'a> GetAssocType for dyn ToString + 'a {
    type Assoc = &'a ();
}

struct WithAssoc<T: GetAssocType + ?Sized> {
    marker: PhantomData<T::Assoc>,
    t_marker: PhantomData<T>,
}

fn shorten_assoc<'a>(
    _long: WithAssoc<dyn ToString + 'static>,
    _short: &'a (),
) -> WithAssoc<dyn ToString + 'a> {
    WithAssoc { marker: PhantomData, t_marker: PhantomData }
}

#[test]
fn lifetime_variance_with_associated_type() {
    let short = ();
    let long = WithAssoc::<dyn ToString + 'static> { marker: PhantomData, t_marker: PhantomData };
    let _shortened = shorten_assoc(long, &short);
}
