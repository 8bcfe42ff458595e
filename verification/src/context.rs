//! What the templates are rendered with: one element per flag, and what holds
//! of the package as a whole.

use vstd::prelude::*;
use vstd::string::*;
use crate::error::{GenerationError, GenerationErrorKind, GenerationErrorView};
use crate::flag::{Cache, CacheView, FlagState, Item, ItemView, Permission};
use crate::ident::{
    create_device_config_ident, device_config_ident, is_valid_name_ident,
    is_valid_package_ident, valid_name_ident, valid_package_ident,
};
use crate::text::{ascii_uppercase, to_ascii_uppercase};

verus! {

/// What the templates read of one flag.
#[derive(Clone, Debug)]
pub struct ClassElement {
    pub default_value: String,
    pub device_config_namespace: String,
    pub device_config_flag: String,
    pub flag_name_constant_suffix: String,
    pub is_read_write: bool,
    pub method_name: String,
}

/// The mathematical value of a [`ClassElement`].
pub struct ClassElementView {
    pub default_value: Seq<char>,
    pub device_config_namespace: Seq<char>,
    pub device_config_flag: Seq<char>,
    pub flag_name_constant_suffix: Seq<char>,
    pub is_read_write: bool,
    pub method_name: Seq<char>,
}

impl View for ClassElement {
    type V = ClassElementView;

    open spec fn view(&self) -> ClassElementView {
        ClassElementView {
            default_value: self.default_value@,
            device_config_namespace: self.device_config_namespace@,
            device_config_flag: self.device_config_flag@,
            flag_name_constant_suffix: self.flag_name_constant_suffix@,
            is_read_write: self.is_read_write,
            method_name: self.method_name@,
        }
    }
}

/// What the templates are rendered with.
#[derive(Clone, Debug)]
pub struct Context {
    pub package_name: String,
    pub is_read_write: bool,
    pub class_elements: Vec<ClassElement>,
}

/// The mathematical value of a [`Context`].
pub struct ContextView {
    pub package_name: Seq<char>,
    pub is_read_write: bool,
    pub class_elements: Seq<ClassElementView>,
}

impl View for Context {
    type V = ContextView;

    open spec fn view(&self) -> ContextView {
        ContextView {
            package_name: self.package_name@,
            is_read_write: self.is_read_write,
            class_elements: self.class_elements@.map_values(|element: ClassElement| element@),
        }
    }
}

/// The Java literal for a flag's default value.
pub open spec fn default_value_of(state: FlagState) -> Seq<char> {
    match state {
        FlagState::Enabled => "true"@,
        FlagState::Disabled => "false"@,
    }
}

/// The element for the flag `item` of `package`.
pub open spec fn class_element_of(package: Seq<char>, item: ItemView) -> ClassElementView {
    ClassElementView {
        default_value: default_value_of(item.state),
        device_config_namespace: item.namespace,
        device_config_flag: device_config_ident(package, item.name),
        flag_name_constant_suffix: ascii_uppercase(item.name),
        is_read_write: item.permission == Permission::ReadWrite,
        method_name: item.name,
    }
}

/// Some element is read-write.
pub open spec fn has_read_write(elements: Seq<ClassElementView>) -> bool {
    exists|i: int| 0 <= i < elements.len() && (#[trigger] elements[i]).is_read_write
}

/// The context for the flags of `cache`: one element per flag, in the order of
/// the flags.
pub open spec fn context_of(cache: CacheView) -> ContextView {
    let class_elements = cache.items.map_values(
        |item: ItemView| class_element_of(cache.package, item),
    );
    ContextView {
        package_name: cache.package,
        is_read_write: has_read_write(class_elements),
        class_elements,
    }
}

/// Every flag of `cache` has an identifier: its name is well formed, and so is
/// the package name.
pub open spec fn identifiers_valid(cache: CacheView) -> bool {
    forall|i: int|
        0 <= i < cache.items.len() ==> valid_package_ident(cache.package) && valid_name_ident(
            (#[trigger] cache.items[i]).name,
        )
}

/// The literals `true` and `false` differ.
pub proof fn lemma_default_values_differ()
    ensures
        "true"@ != "false"@,
{
    reveal_strlit("true");
    reveal_strlit("false");
    assert("true"@.len() != "false"@.len());
}

/// The element for the flag `item` of `package`.
pub fn create_class_element(package: &str, item: &Item) -> (element: ClassElement)
    requires
        valid_package_ident(package@),
        valid_name_ident(item.name@),
    ensures
        element@ == class_element_of(package@, item@),
        element.default_value@ == "true"@ <==> item.state == FlagState::Enabled,
        element.device_config_flag@ == package@ + seq!['.'] + item.name@,
        element.flag_name_constant_suffix@ == ascii_uppercase(item.name@),
{
    proof {
        lemma_default_values_differ();
    }
    let device_config_flag = create_device_config_ident(package, item.name.as_str()).unwrap();
    ClassElement {
        default_value: match item.state {
            FlagState::Enabled => String::from_str("true"),
            FlagState::Disabled => String::from_str("false"),
        },
        device_config_namespace: item.namespace.clone(),
        device_config_flag,
        flag_name_constant_suffix: to_ascii_uppercase(item.name.as_str()),
        is_read_write: match item.permission {
            Permission::ReadWrite => true,
            Permission::ReadOnly => false,
        },
        method_name: item.name.clone(),
    }
}

/// Whether some element is read-write.
pub fn any_read_write(elements: &Vec<ClassElement>) -> (any: bool)
    ensures
        any == has_read_write(elements@.map_values(|element: ClassElement| element@)),
{
    let ghost views = elements@.map_values(|element: ClassElement| element@);
    let mut any = false;
    for i in 0..elements.len()
        invariant
            views == elements@.map_values(|element: ClassElement| element@),
            any == has_read_write(views.take(i as int)),
    {
        assert(views.take(i + 1) == views.take(i as int).push(views[i as int]));
        if elements[i].is_read_write {
            assert(views.take(i + 1)[i as int].is_read_write);
            any = true;
        } else {
            assert(has_read_write(views.take(i + 1)) ==> has_read_write(views.take(i as int))) by {
                if has_read_write(views.take(i + 1)) {
                    let k = choose|k: int|
                        0 <= k < i + 1 && (#[trigger] views.take(i + 1)[k]).is_read_write;
                    assert(views.take(i as int)[k].is_read_write);
                }
            }
            assert(has_read_write(views.take(i as int)) ==> has_read_write(views.take(i + 1))) by {
                if has_read_write(views.take(i as int)) {
                    let k = choose|k: int|
                        0 <= k < i && (#[trigger] views.take(i as int)[k]).is_read_write;
                    assert(views.take(i + 1)[k].is_read_write);
                }
            }
        }
    }
    assert(views.take(elements.len() as int) == views);
    any
}

/// The context holds one element per flag, in the order of the flags, and each
/// element says of its flag: the default value is `true` exactly if the flag is
/// enabled; the identifier is the package name, a dot and the flag's name; the
/// suffix of its constant is the flag's name in upper case; it is read-write
/// exactly if the flag is; the namespace and the method's name are those of
/// the flag.
pub proof fn lemma_context_elements(cache: CacheView)
    ensures
        context_of(cache).package_name == cache.package,
        context_of(cache).class_elements.len() == cache.items.len(),
        forall|i: int|
            0 <= i < cache.items.len() ==> {
                let element = #[trigger] context_of(cache).class_elements[i];
                let item = cache.items[i];
                &&& element.default_value == "true"@ <==> item.state == FlagState::Enabled
                &&& element.default_value == "false"@ <==> item.state == FlagState::Disabled
                &&& element.device_config_namespace == item.namespace
                &&& element.device_config_flag == cache.package + seq!['.'] + item.name
                &&& element.flag_name_constant_suffix == ascii_uppercase(item.name)
                &&& element.is_read_write <==> item.permission == Permission::ReadWrite
                &&& element.method_name == item.name
            },
{
    lemma_default_values_differ();
}

/// A context is read-write exactly if a flag of the cache is.
pub proof fn lemma_read_write_iff_permission(cache: CacheView)
    ensures
        context_of(cache).is_read_write <==> exists|i: int|
            0 <= i < cache.items.len() && (#[trigger] cache.items[i]).permission
                == Permission::ReadWrite,
{
    let elements = context_of(cache).class_elements;
    if context_of(cache).is_read_write {
        let k = choose|k: int| 0 <= k < elements.len() && (#[trigger] elements[k]).is_read_write;
        assert(cache.items[k].permission == Permission::ReadWrite);
    }
    if exists|i: int|
        0 <= i < cache.items.len() && (#[trigger] cache.items[i]).permission
            == Permission::ReadWrite {
        let k = choose|k: int|
            0 <= k < cache.items.len() && (#[trigger] cache.items[k]).permission
                == Permission::ReadWrite;
        assert(elements[k].is_read_write);
    }
}

/// The context for the flags of `cache`, unless the package name or the name of
/// a flag is not well formed.
pub fn create_context(cache: &Cache) -> (context: Result<Context, GenerationError>)
    ensures
        match context {
            Ok(context) => identifiers_valid(cache@) && context@ == context_of(cache@),
            Err(error) => {
                &&& !identifiers_valid(cache@)
                &&& error@ == (GenerationErrorView {
                    package: cache@.package,
                    kind: GenerationErrorKind::ContractViolation,
                })
            },
        },
        context matches Ok(context) ==> (context.is_read_write <==> exists|i: int|
            0 <= i < cache@.items.len() && (#[trigger] cache@.items[i]).permission
                == Permission::ReadWrite),
{
    let package = cache.package();
    let ghost wanted = context_of(cache@).class_elements;
    if cache.items.len() > 0 && !is_valid_package_ident(package) {
        assert(!valid_name_ident(cache@.items[0].name) || !valid_package_ident(cache@.package));
        return Err(GenerationError::new(package, GenerationErrorKind::ContractViolation));
    }
    let mut class_elements: Vec<ClassElement> = Vec::new();
    for i in 0..cache.items.len()
        invariant
            package@ == cache@.package,
            wanted == context_of(cache@).class_elements,
            cache.items.len() > 0 ==> valid_package_ident(package@),
            forall|k: int| 0 <= k < i ==> valid_name_ident((#[trigger] cache@.items[k]).name),
            class_elements@.map_values(|element: ClassElement| element@) == wanted.take(i as int),
    {
        let item = &cache.items[i];
        assert(item@ == cache@.items[i as int]);
        if !is_valid_name_ident(item.name.as_str()) {
            return Err(GenerationError::new(package, GenerationErrorKind::ContractViolation));
        }
        let element = create_class_element(package, item);
        assert(wanted.take(i + 1) == wanted.take(i as int).push(element@));
        assert(class_elements@.push(element).map_values(|element: ClassElement| element@)
            == class_elements@.map_values(|element: ClassElement| element@).push(element@));
        class_elements.push(element);
    }
    assert(wanted.take(cache.items.len() as int) == wanted);
    let is_read_write = any_read_write(&class_elements);
    proof {
        lemma_read_write_iff_permission(cache@);
    }
    Ok(Context { package_name: String::from_str(package), is_read_write, class_elements })
}

} // verus!
