//! The Java templates, and the template engine that renders them.

use vstd::prelude::*;
use crate::json::{json_of, Json};

verus! {

/// The file with the class through which callers read the flags.
pub const FLAGS_JAVA: &'static str = "Flags.java";

/// The file with the class that computes the flags' values.
pub const FEATURE_FLAGS_IMPL_JAVA: &'static str = "FeatureFlagsImpl.java";

/// The file with the interface that declares one method per flag.
pub const FEATURE_FLAGS_JAVA: &'static str = "FeatureFlags.java";

/// The template of [`FLAGS_JAVA`]: one static method per flag, each of which
/// asks the one instance of the implementation.
pub const FLAGS_JAVA_TEMPLATE: &'static str = "package {package_name};

public final class Flags \\{
{{- for item in class_elements }}
    public static boolean {item.method_name}() \\{
        return FEATURE_FLAGS.{item.method_name}();
    }
{{- endfor }}
    private static FeatureFlags FEATURE_FLAGS = new FeatureFlagsImpl();

}
";

/// The template of [`FEATURE_FLAGS_IMPL_JAVA`]: a read-write flag is read from
/// the device configuration, with its default value at hand; a read-only flag
/// is its default value. The device configuration is imported only if some
/// flag is read-write.
pub const FEATURE_FLAGS_IMPL_JAVA_TEMPLATE: &'static str = "package {package_name};
{{ if is_read_write }}
import android.provider.DeviceConfig;
{{ endif }}
public final class FeatureFlagsImpl implements FeatureFlags \\{
{{- for item in class_elements }}
    @Override
    public boolean {item.method_name}() \\{
{{- if item.is_read_write }}
        return DeviceConfig.getBoolean(
            \"{item.device_config_namespace}\",
            \"{item.device_config_flag}\",
            {item.default_value}
        );
{{- else }}
        return {item.default_value};
{{- endif }}
    }
{{- endfor }}
}
";

/// The template of [`FEATURE_FLAGS_JAVA`]: one method per flag.
pub const FEATURE_FLAGS_JAVA_TEMPLATE: &'static str = "package {package_name};

public interface FeatureFlags \\{
{{- for item in class_elements }}
    boolean {item.method_name}();
{{- endfor }}
}
";

/// `text` is one of the three Java templates.
pub open spec fn is_java_template(text: Seq<char>) -> bool {
    ||| text == FLAGS_JAVA_TEMPLATE@
    ||| text == FEATURE_FLAGS_IMPL_JAVA_TEMPLATE@
    ||| text == FEATURE_FLAGS_JAVA_TEMPLATE@
}

/// `templates` holds Java templates only.
pub open spec fn holds_java_templates(templates: Map<Seq<char>, Seq<char>>) -> bool {
    forall|name: Seq<char>|
        templates.dom().contains(name) ==> is_java_template(#[trigger] templates[name])
}

/// The registry without any template.
pub open spec fn no_templates() -> Map<Seq<char>, Seq<char>> {
    Map::empty()
}

/// `tinytemplate::TinyTemplate`, the engine's registry of compiled templates.
/// What a registry holds is known through [`registered`] alone.
#[verifier::external_type_specification]
#[verifier::external_body]
pub struct ExTinyTemplate<'a>(tinytemplate::TinyTemplate<'a>);

/// `tinytemplate::error::Error`, the engine's account of a failure. Nothing is
/// read from it but that it is there.
#[verifier::external_type_specification]
#[verifier::external_body]
pub struct ExTemplateError(tinytemplate::error::Error);

/// The templates that a registry holds: under each name the text that was
/// added under it last.
pub uninterp spec fn registered(registry: &tinytemplate::TinyTemplate) -> Map<Seq<char>, Seq<char>>;

/// Whether the engine accepts `text` as a template.
pub uninterp spec fn template_compiles(text: Seq<char>) -> bool;

/// What the engine renders from the template `name` of `templates` with
/// `context`, if it renders anything.
pub uninterp spec fn rendered(
    templates: Map<Seq<char>, Seq<char>>,
    name: Seq<char>,
    context: Json,
) -> Option<Seq<char>>;

/// `TinyTemplate::new`: a registry that holds no template. Only registries made
/// here reach `render`, so each formats values as the engine does by default.
#[verifier::external_body]
pub(crate) fn new_registry<'a>() -> (registry: tinytemplate::TinyTemplate<'a>)
    ensures
        registered(&registry) == no_templates(),
{
    tinytemplate::TinyTemplate::new()
}

/// `TinyTemplate::add_template`: compiles `text` and, if the engine accepts it,
/// registers it under `name` in place of what was there; else the registry
/// stays as it was. Whether the engine accepts a text depends on the text
/// alone. On some malformed texts the engine panics, so only the Java
/// templates are admitted.
#[verifier::external_body]
pub(crate) fn add_template<'a>(
    registry: &mut tinytemplate::TinyTemplate<'a>,
    name: &'a str,
    text: &'a str,
) -> (added: Result<(), tinytemplate::error::Error>)
    requires
        is_java_template(text@),
    ensures
        added is Ok <==> template_compiles(text@),
        added is Ok ==> registered(final(registry)) == registered(old(registry)).insert(
            name@,
            text@,
        ),
        added is Err ==> registered(final(registry)) == registered(old(registry)),
{
    registry.add_template(name, text)
}

/// `TinyTemplate::render`: renders the template `name` with `context`. The
/// text, or the failure, depends on the registered templates, the name and
/// the document alone. A template that calls itself would not end, so only
/// registries of Java templates are admitted: those call no template.
#[verifier::external_body]
pub(crate) fn render(
    registry: &tinytemplate::TinyTemplate,
    name: &str,
    context: &serde_json::Value,
) -> (text: Result<String, tinytemplate::error::Error>)
    requires
        holds_java_templates(registered(registry)),
    ensures
        match text {
            Ok(text) => rendered(registered(registry), name@, json_of(*context)) == Some(text@),
            Err(_) => rendered(registered(registry), name@, json_of(*context)) is None,
        },
{
    registry.render(name, context)
}

} // verus!
