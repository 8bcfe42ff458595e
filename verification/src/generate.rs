//! The generator: from the flags of a package to its Java sources.

use vstd::prelude::*;
use vstd::utf8::encode_utf8;
use crate::context::{context_of, create_context, identifiers_valid};
use crate::error::{GenerationError, GenerationErrorKind, GenerationErrorView};
use crate::flag::{Cache, CacheView};
use crate::json::{context_json, json_of, Json};
use crate::output::{
    output_file, output_file_of, package_dir, package_directory, path_in, OutputFile,
    OutputFileView,
};
use crate::template::{
    add_template, new_registry, no_templates, registered, render, rendered,
    template_compiles, FEATURE_FLAGS_IMPL_JAVA, FEATURE_FLAGS_IMPL_JAVA_TEMPLATE,
    FEATURE_FLAGS_JAVA, FEATURE_FLAGS_JAVA_TEMPLATE, FLAGS_JAVA, FLAGS_JAVA_TEMPLATE,
};

verus! {

/// The names of the generated files, in the order in which they are returned.
pub open spec fn java_file_names() -> Seq<Seq<char>> {
    seq![FLAGS_JAVA@, FEATURE_FLAGS_IMPL_JAVA@, FEATURE_FLAGS_JAVA@]
}

/// The templates, each under the name of the file that it renders.
pub open spec fn java_templates() -> Map<Seq<char>, Seq<char>> {
    no_templates().insert(FLAGS_JAVA@, FLAGS_JAVA_TEMPLATE@).insert(
        FEATURE_FLAGS_IMPL_JAVA@,
        FEATURE_FLAGS_IMPL_JAVA_TEMPLATE@,
    ).insert(FEATURE_FLAGS_JAVA@, FEATURE_FLAGS_JAVA_TEMPLATE@)
}

/// The engine accepts each of the three templates.
pub open spec fn templates_compile() -> bool {
    &&& template_compiles(FLAGS_JAVA_TEMPLATE@)
    &&& template_compiles(FEATURE_FLAGS_IMPL_JAVA_TEMPLATE@)
    &&& template_compiles(FEATURE_FLAGS_JAVA_TEMPLATE@)
}

/// What the engine renders for the file `file_name` with `context`.
pub open spec fn rendered_java(context: Json, file_name: Seq<char>) -> Option<Seq<char>> {
    rendered(java_templates(), file_name, context)
}

/// The engine renders each of the three files with `context`.
pub open spec fn all_rendered(context: Json) -> bool {
    forall|i: int|
        0 <= i < java_file_names().len() ==> rendered_java(
            context,
            #[trigger] java_file_names()[i],
        ) is Some
}

/// The three files of `package`, each with what the engine renders for it with
/// `context`.
pub open spec fn rendered_files(package: Seq<char>, context: Json) -> Seq<OutputFileView> {
    java_file_names().map_values(
        |file_name: Seq<char>|
            output_file_of(package, file_name, rendered_java(context, file_name)->0),
    )
}

/// The failure of kind `kind` for `package`.
pub open spec fn failure<T>(package: Seq<char>, kind: GenerationErrorKind) -> Result<
    T,
    GenerationErrorView,
> {
    Err(GenerationErrorView { package, kind })
}

/// What a generation run on `cache` gives: the three files, or the first
/// failure. The identifiers are checked first, then the templates are
/// compiled, then the files are rendered.
pub open spec fn generated(cache: CacheView) -> Result<Seq<OutputFileView>, GenerationErrorView> {
    let context = context_of(cache).to_json();
    if !identifiers_valid(cache) {
        failure(cache.package, GenerationErrorKind::ContractViolation)
    } else if !templates_compile() {
        failure(cache.package, GenerationErrorKind::TemplateParseError)
    } else if !all_rendered(context) {
        failure(cache.package, GenerationErrorKind::TemplateRenderError)
    } else {
        Ok(rendered_files(cache.package, context))
    }
}

/// The mathematical value of what a generation run returned.
pub open spec fn outcome_view(outcome: Result<Vec<OutputFile>, GenerationError>) -> Result<
    Seq<OutputFileView>,
    GenerationErrorView,
> {
    match outcome {
        Ok(files) => Ok(files@.map_values(|file: OutputFile| file@)),
        Err(error) => Err(error@),
    }
}

/// What the engine said of a template: a template that it refused fails the
/// run for `package`.
pub fn template_added(package: &str, added: Result<(), tinytemplate::error::Error>) -> (checked:
    Result<(), GenerationError>)
    ensures
        match checked {
            Ok(_) => added is Ok,
            Err(error) => {
                &&& added is Err
                &&& error@ == (GenerationErrorView {
                    package: package@,
                    kind: GenerationErrorKind::TemplateParseError,
                })
            },
        },
{
    match added {
        Ok(_) => Ok(()),
        Err(_) => Err(GenerationError::new(package, GenerationErrorKind::TemplateParseError)),
    }
}

/// What the engine rendered for the file `file_name`: the file in `directory`
/// with the rendered text, or the failure of the run for `package` if the
/// engine could not render it.
pub fn rendered_file(
    package: &str,
    directory: &str,
    file_name: &str,
    text: Result<String, tinytemplate::error::Error>,
) -> (file: Result<OutputFile, GenerationError>)
    ensures
        match file {
            Ok(file) => {
                &&& text matches Ok(text)
                &&& file@ == (OutputFileView {
                    path: path_in(directory@, file_name@),
                    contents: encode_utf8(text@),
                })
            },
            Err(error) => {
                &&& text is Err
                &&& error@ == (GenerationErrorView {
                    package: package@,
                    kind: GenerationErrorKind::TemplateRenderError,
                })
            },
        },
{
    match text {
        Ok(text) => Ok(output_file(directory, file_name, text)),
        Err(_) => Err(GenerationError::new(package, GenerationErrorKind::TemplateRenderError)),
    }
}

/// The Java sources for the flags of `cache`: the class through which callers
/// read the flags, the class that computes their values, and the interface
/// between the two, in this order and each in the directory of the package.
/// Nothing is returned unless all three were rendered.
pub fn generate_java_code(cache: &Cache) -> (outcome: Result<Vec<OutputFile>, GenerationError>)
    ensures
        outcome_view(outcome) == generated(cache@),
        outcome matches Ok(files) ==> {
            &&& files.len() == 3
            &&& files[0].path@ == path_in(package_dir(cache@.package), FLAGS_JAVA@)
            &&& files[1].path@ == path_in(package_dir(cache@.package), FEATURE_FLAGS_IMPL_JAVA@)
            &&& files[2].path@ == path_in(package_dir(cache@.package), FEATURE_FLAGS_JAVA@)
        },
{
    let package = cache.package();
    let context = match create_context(cache) {
        Ok(context) => context,
        Err(error) => {
            return Err(error);
        },
    };
    let context = context_json(&context);

    let java_files = vec![FLAGS_JAVA, FEATURE_FLAGS_IMPL_JAVA, FEATURE_FLAGS_JAVA];
    assert(java_files@.map_values(|file_name: &str| file_name@) == java_file_names());

    let mut template = new_registry();
    match template_added(package, add_template(&mut template, FLAGS_JAVA, FLAGS_JAVA_TEMPLATE)) {
        Ok(_) => {},
        Err(error) => {
            return Err(error);
        },
    }
    match template_added(
        package,
        add_template(&mut template, FEATURE_FLAGS_IMPL_JAVA, FEATURE_FLAGS_IMPL_JAVA_TEMPLATE),
    ) {
        Ok(_) => {},
        Err(error) => {
            return Err(error);
        },
    }
    match template_added(
        package,
        add_template(&mut template, FEATURE_FLAGS_JAVA, FEATURE_FLAGS_JAVA_TEMPLATE),
    ) {
        Ok(_) => {},
        Err(error) => {
            return Err(error);
        },
    }
    assert(registered(&template) == java_templates());

    let path = package_directory(package);
    let ghost wanted = rendered_files(cache@.package, context_of(cache@).to_json());
    let mut files: Vec<OutputFile> = Vec::new();
    for i in 0..java_files.len()
        invariant
            identifiers_valid(cache@),
            templates_compile(),
            java_files@.map_values(|file_name: &str| file_name@) == java_file_names(),
            registered(&template) == java_templates(),
            json_of(context) == context_of(cache@).to_json(),
            package@ == cache@.package,
            path@ == package_dir(cache@.package),
            wanted == rendered_files(cache@.package, context_of(cache@).to_json()),
            forall|k: int|
                0 <= k < i ==> rendered_java(
                    context_of(cache@).to_json(),
                    #[trigger] java_file_names()[k],
                ) is Some,
            files@.map_values(|file: OutputFile| file@) == wanted.take(i as int),
    {
        let file_name = java_files[i];
        assert(file_name@ == java_file_names()[i as int]) by {
            assert(java_files@.map_values(|file_name: &str| file_name@)[i as int] == file_name@);
        }
        let text = render(&template, file_name, &context);
        let file = match rendered_file(package, path.as_str(), file_name, text) {
            Ok(file) => file,
            Err(error) => {
                return Err(error);
            },
        };
        assert(wanted.take(i + 1) == wanted.take(i as int).push(file@));
        assert(files@.push(file).map_values(|file: OutputFile| file@) == files@.map_values(
            |file: OutputFile| file@,
        ).push(file@));
        files.push(file);
    }
    assert(wanted.take(java_files.len() as int) == wanted);
    proof {
        let views = files@.map_values(|file: OutputFile| file@);
        assert(views[0] == files[0]@ && views[1] == files[1]@ && views[2] == files[2]@);
    }
    Ok(files)
}

/// Generation is a function of the flags: two runs on caches that hold the
/// same package name and the same flags end alike, and where they succeed they
/// return the same paths and the same bytes.
pub proof fn lemma_generation_deterministic(
    first: Cache,
    second: Cache,
    first_outcome: Result<Vec<OutputFile>, GenerationError>,
    second_outcome: Result<Vec<OutputFile>, GenerationError>,
)
    requires
        first@ == second@,
        outcome_view(first_outcome) == generated(first@),
        outcome_view(second_outcome) == generated(second@),
    ensures
        outcome_view(first_outcome) == outcome_view(second_outcome),
        first_outcome is Ok <==> second_outcome is Ok,
        first_outcome matches Err(first_error) ==> second_outcome matches Err(second_error)
            && first_error@ == second_error@,
        first_outcome matches Ok(first_files) ==> second_outcome matches Ok(second_files) && {
            &&& first_files.len() == second_files.len()
            &&& forall|i: int|
                0 <= i < first_files.len() ==> (#[trigger] first_files[i]).path@
                    == second_files[i].path@ && first_files[i].contents@
                    == second_files[i].contents@
        },
{
    if let Ok(first_files) = first_outcome {
        let second_files = second_outcome->Ok_0;
        let first_views = first_files@.map_values(|file: OutputFile| file@);
        let second_views = second_files@.map_values(|file: OutputFile| file@);
        assert(first_views == second_views);
        assert(first_files.len() == first_views.len());
        assert forall|i: int| 0 <= i < first_files.len() implies (#[trigger] first_files[i]).path@
            == second_files[i].path@ && first_files[i].contents@ == second_files[i].contents@ by {
            assert(first_views[i] == first_files[i]@);
            assert(second_views[i] == second_files[i]@);
        }
    }
}

} // verus!
