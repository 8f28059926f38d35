//! The OpenAPI document in `utoipa`'s form.  Each `utoipa` value is kept
//! beside the plain values it was built from, so that the text `utoipa`
//! renders can be named as a function of those values.

use vstd::prelude::*;
use crate::openapi::{text_view, ApiInfo, ApiMethod, ApiOperation, ApiServer, ApiTag};

verus! {

#[verifier::external_type_specification]
#[verifier::external_body]
pub struct ExOpenApi(utoipa::openapi::OpenApi);

#[verifier::external_type_specification]
#[verifier::external_body]
pub struct ExInfo(utoipa::openapi::Info);

#[verifier::external_type_specification]
#[verifier::external_body]
pub struct ExServer(utoipa::openapi::Server);

#[verifier::external_type_specification]
#[verifier::external_body]
pub struct ExTag(utoipa::openapi::Tag);

#[verifier::external_type_specification]
#[verifier::external_body]
pub struct ExPaths(utoipa::openapi::Paths);

#[verifier::external_type_specification]
#[verifier::external_body]
pub struct ExOperation(utoipa::openapi::path::Operation);

#[verifier::external_type_specification]
#[verifier::external_body]
pub struct ExComponents(utoipa::openapi::Components);

#[verifier::external_type_specification]
#[verifier::external_body]
pub struct ExContact(utoipa::openapi::Contact);

#[verifier::external_type_specification]
#[verifier::external_body]
pub struct ExLicense(utoipa::openapi::License);

#[verifier::external_type_specification]
#[verifier::external_body]
pub struct ExOperationBuilder(utoipa::openapi::path::OperationBuilder);

/// A contact: name and e-mail address.
pub type ContactModel = (Seq<char>, Seq<char>);

/// The document information: title, version, description, contact and
/// license name.
pub type InfoModel = (Seq<char>, Seq<char>, Seq<char>, ContactModel, Seq<char>);

/// A server or a tag: a name (or URL) and a description.
pub type PairModel = (Seq<char>, Seq<char>);

/// An operation: tag, summary, description, the responses in the order
/// they were added, the operation id, and the path parameters (name and
/// description) in the order they were added.
pub type OperationModel = (
    Seq<char>,
    Seq<char>,
    Option<Seq<char>>,
    Seq<(u16, Seq<char>)>,
    Seq<char>,
    Seq<(Seq<char>, Seq<char>)>,
);

/// The operations in the order they were added, each under its path and
/// method.
pub type PathsModel = Seq<(Seq<char>, ApiMethod, OperationModel)>;

/// The API key security schemes: name and header.
pub type ComponentsModel = Seq<(Seq<char>, Seq<char>)>;

/// A whole document: information, servers, operations, components and
/// tags.
pub type DocumentModel = (InfoModel, Seq<PairModel>, PathsModel, Option<ComponentsModel>, Seq<PairModel>);

/// A `utoipa` value together with the plain values it was built from.
/// The fields are private and only the builders below make one, each from
/// exactly the values its model records, so the model describes the
/// value.
pub struct Rendered<T, M> {
    value: T,
    model: Ghost<M>,
}

impl<T, M> Rendered<T, M> {
    /// The plain values the value was built from.
    pub closed spec fn model(&self) -> M {
        self.model@
    }
}

/// The models of a list of values.
pub open spec fn models<T, M>(v: Seq<Rendered<T, M>>) -> Seq<M> {
    v.map_values(|r: Rendered<T, M>| r.model())
}

/// The indented JSON text `utoipa`'s `to_pretty_json` writes for the
/// document built from `doc`.
pub uninterp spec fn openapi_json_text(doc: DocumentModel) -> Seq<char>;

/// The YAML text `serde_yaml::to_string` writes for the document built
/// from `doc`.
pub uninterp spec fn openapi_yaml_text(doc: DocumentModel) -> Seq<char>;

/// `utoipa`'s `ContactBuilder`: a contact with a name and an e-mail
/// address.
#[verifier::external_body]
pub(crate) fn utoipa_contact(name: &String, email: &String) -> (r: Rendered<utoipa::openapi::Contact, ContactModel>)
    ensures
        r.model() == (name@, email@),
{
    let value = utoipa::openapi::ContactBuilder::new().name(Some(name.clone())).email(Some(email.clone())).build();
    Rendered { value, model: Ghost((name@, email@)) }
}

/// `utoipa`'s `LicenseBuilder`: a license with a name.
#[verifier::external_body]
pub(crate) fn utoipa_license(name: &String) -> (r: Rendered<utoipa::openapi::License, Seq<char>>)
    ensures
        r.model() == name@,
{
    Rendered { value: utoipa::openapi::LicenseBuilder::new().name(name.clone()).build(), model: Ghost(name@) }
}

/// `utoipa`'s `InfoBuilder`: the document information.
#[verifier::external_body]
pub(crate) fn utoipa_info(
    info: &ApiInfo,
    contact: Rendered<utoipa::openapi::Contact, ContactModel>,
    license: Rendered<utoipa::openapi::License, Seq<char>>,
) -> (r: Rendered<utoipa::openapi::Info, InfoModel>)
    ensures
        r.model() == (info.title@, info.version@, info.description@, contact.model(), license.model()),
{
    let model = Ghost((info.title@, info.version@, info.description@, contact.model@, license.model@));
    let value = utoipa::openapi::InfoBuilder::new().title(info.title.clone()).version(info.version.clone())
        .description(Some(info.description.clone())).contact(Some(contact.value)).license(Some(license.value))
        .build();
    Rendered { value, model }
}

/// `utoipa`'s `ServerBuilder`: a server with its description.
#[verifier::external_body]
pub(crate) fn utoipa_server(server: &ApiServer) -> (r: Rendered<utoipa::openapi::Server, PairModel>)
    ensures
        r.model() == (server.url@, server.description@),
{
    let value = utoipa::openapi::ServerBuilder::new().url(server.url.clone())
        .description(Some(server.description.clone())).build();
    Rendered { value, model: Ghost((server.url@, server.description@)) }
}

/// `utoipa`'s `TagBuilder`: a tag with its description.
#[verifier::external_body]
pub(crate) fn utoipa_tag(tag: &ApiTag) -> (r: Rendered<utoipa::openapi::Tag, PairModel>)
    ensures
        r.model() == (tag.name@, tag.description@),
{
    let value = utoipa::openapi::tag::TagBuilder::new().name(tag.name.clone())
        .description(Some(tag.description.clone())).build();
    Rendered { value, model: Ghost((tag.name@, tag.description@)) }
}

/// `utoipa`'s `OperationBuilder`: an operation with its tag, summary,
/// description and operation id, and no responses or parameters yet.
#[verifier::external_body]
pub(crate) fn utoipa_operation_builder(op: &ApiOperation) -> (r: Rendered<
    utoipa::openapi::path::OperationBuilder,
    OperationModel,
>)
    ensures
        r.model() == (
            op.tag@,
            op.summary@,
            text_view(op.description),
            Seq::<(u16, Seq<char>)>::empty(),
            op.operation_id@,
            Seq::<(Seq<char>, Seq<char>)>::empty(),
        ),
{
    let value = utoipa::openapi::path::OperationBuilder::new().tag(op.tag.clone())
        .summary(Some(op.summary.clone())).description(op.description.clone())
        .operation_id(Some(op.operation_id.clone()));
    Rendered { value, model: Ghost((op.tag@, op.summary@, text_view(op.description), Seq::empty(), op.operation_id@, Seq::empty())) }
}

/// `OperationBuilder::parameter` with `ParameterBuilder`: a required path
/// parameter `name` of type string, described by `description`.
#[verifier::external_body]
pub(crate) fn utoipa_with_path_parameter(
    builder: Rendered<utoipa::openapi::path::OperationBuilder, OperationModel>,
    name: &String,
    description: &String,
) -> (r: Rendered<utoipa::openapi::path::OperationBuilder, OperationModel>)
    ensures
        r.model() == (builder.model().0, builder.model().1, builder.model().2, builder.model().3,
            builder.model().4, builder.model().5.push((name@, description@))),
{
    let m = builder.model@;
    let model = Ghost((m.0, m.1, m.2, m.3, m.4, m.5.push((name@, description@))));
    let string_type = utoipa::openapi::ObjectBuilder::new().schema_type(utoipa::openapi::Type::String);
    let parameter = utoipa::openapi::path::ParameterBuilder::new().name(name.clone())
        .parameter_in(utoipa::openapi::path::ParameterIn::Path).required(utoipa::openapi::Required::True)
        .description(Some(description.clone())).schema(Some(string_type));
    Rendered { value: builder.value.parameter(parameter), model }
}

/// `OperationBuilder::response`: a response with `description` under the
/// status code `code`.
#[verifier::external_body]
pub(crate) fn utoipa_with_response(
    builder: Rendered<utoipa::openapi::path::OperationBuilder, OperationModel>,
    code: u16,
    description: &String,
) -> (r: Rendered<utoipa::openapi::path::OperationBuilder, OperationModel>)
    ensures
        r.model() == (builder.model().0, builder.model().1, builder.model().2, builder.model().3.push(
            (code, description@),
        ), builder.model().4, builder.model().5),
{
    let m = builder.model@;
    let model = Ghost((m.0, m.1, m.2, m.3.push((code, description@)), m.4, m.5));
    let response = utoipa::openapi::ResponseBuilder::new().description(description.clone()).build();
    Rendered { value: builder.value.response(code.to_string(), response), model }
}

/// `OperationBuilder::build`: the operation.
#[verifier::external_body]
pub(crate) fn utoipa_build_operation(
    builder: Rendered<utoipa::openapi::path::OperationBuilder, OperationModel>,
) -> (r: Rendered<utoipa::openapi::path::Operation, OperationModel>)
    ensures
        r.model() == builder.model(),
{
    Rendered { value: builder.value.build(), model: builder.model }
}

/// `utoipa::openapi::Paths::new`: no paths.
#[verifier::external_body]
pub(crate) fn utoipa_paths() -> (r: Rendered<utoipa::openapi::Paths, PathsModel>)
    ensures
        r.model() == Seq::<(Seq<char>, ApiMethod, OperationModel)>::empty(),
{
    Rendered { value: utoipa::openapi::Paths::new(), model: Ghost(Seq::empty()) }
}

/// `utoipa::openapi::Paths::add_path_operation`: the operation under its
/// path and method.
#[verifier::external_body]
pub(crate) fn utoipa_add_operation(
    paths: &mut Rendered<utoipa::openapi::Paths, PathsModel>,
    path: &str,
    method: ApiMethod,
    operation: Rendered<utoipa::openapi::path::Operation, OperationModel>,
)
    ensures
        final(paths).model() == old(paths).model().push((path@, method, operation.model())),
{
    let m = match method {
        ApiMethod::Get => utoipa::openapi::HttpMethod::Get,
        ApiMethod::Post => utoipa::openapi::HttpMethod::Post,
        ApiMethod::Put => utoipa::openapi::HttpMethod::Put,
        ApiMethod::Delete => utoipa::openapi::HttpMethod::Delete,
    };
    paths.model = Ghost(paths.model@.push((path@, method, operation.model@)));
    paths.value.add_path_operation(path, vec![m], operation.value);
}

/// `utoipa::openapi::Components::new`: no components.
#[verifier::external_body]
pub(crate) fn utoipa_components() -> (r: Rendered<utoipa::openapi::Components, ComponentsModel>)
    ensures
        r.model() == Seq::<(Seq<char>, Seq<char>)>::empty(),
{
    Rendered { value: utoipa::openapi::Components::new(), model: Ghost(Seq::empty()) }
}

/// `Components::add_security_scheme`: an API key scheme named `name`,
/// carried in the header `header`.
#[verifier::external_body]
pub(crate) fn utoipa_add_api_key_scheme(
    components: &mut Rendered<utoipa::openapi::Components, ComponentsModel>,
    name: &String,
    header: &String,
)
    ensures
        final(components).model() == old(components).model().push((name@, header@)),
{
    let key = utoipa::openapi::security::ApiKeyValue::new(header.clone());
    let scheme = utoipa::openapi::security::SecurityScheme::ApiKey(utoipa::openapi::security::ApiKey::Header(key));
    components.model = Ghost(components.model@.push((name@, header@)));
    components.value.add_security_scheme(name.clone(), scheme);
}

/// The model of a document built from these parts.
pub open spec fn document_model(
    info: Rendered<utoipa::openapi::Info, InfoModel>,
    servers: Seq<Rendered<utoipa::openapi::Server, PairModel>>,
    paths: Rendered<utoipa::openapi::Paths, PathsModel>,
    components: Option<Rendered<utoipa::openapi::Components, ComponentsModel>>,
    tags: Seq<Rendered<utoipa::openapi::Tag, PairModel>>,
) -> DocumentModel {
    (
        info.model(),
        models(servers),
        paths.model(),
        match components {
            Some(c) => Some(c.model()),
            None => None,
        },
        models(tags),
    )
}

/// `utoipa`'s `OpenApiBuilder`: the document from its parts.
#[verifier::external_body]
pub(crate) fn utoipa_document(
    info: Rendered<utoipa::openapi::Info, InfoModel>,
    servers: Vec<Rendered<utoipa::openapi::Server, PairModel>>,
    paths: Rendered<utoipa::openapi::Paths, PathsModel>,
    components: Option<Rendered<utoipa::openapi::Components, ComponentsModel>>,
    tags: Vec<Rendered<utoipa::openapi::Tag, PairModel>>,
) -> (r: Rendered<utoipa::openapi::OpenApi, DocumentModel>)
    ensures
        r.model() == document_model(info, servers@, paths, components, tags@),
{
    let model = Ghost(document_model(info, servers@, paths, components, tags@));
    let value = utoipa::openapi::OpenApiBuilder::new().info(info.value)
        .servers(Some(servers.into_iter().map(|s| s.value).collect::<Vec<_>>())).paths(paths.value)
        .components(components.map(|c| c.value)).tags(Some(tags.into_iter().map(|t| t.value).collect::<Vec<_>>()))
        .build();
    Rendered { value, model }
}

/// `utoipa::openapi::OpenApi::to_pretty_json`: the document as indented
/// JSON.  It cannot fail for this document: every map in it has text
/// keys and every value serializes, so the text is always produced.
#[verifier::external_body]
pub(crate) fn utoipa_pretty_json(doc: &Rendered<utoipa::openapi::OpenApi, DocumentModel>) -> (r: String)
    ensures
        r@ == openapi_json_text(doc.model()),
{
    match doc.value.to_pretty_json() {
        Ok(s) => s,
        Err(_) => String::new(),
    }
}

/// `serde_yaml::to_string` of the document.  It cannot fail for this
/// document: `serde_yaml` refuses only byte strings and enum variants
/// nested in enum variants, and the document's tagged enums serialize as
/// maps, so the text is always produced.
#[verifier::external_body]
pub(crate) fn utoipa_yaml(doc: &Rendered<utoipa::openapi::OpenApi, DocumentModel>) -> (r: String)
    ensures
        r@ == openapi_yaml_text(doc.model()),
{
    match serde_yaml::to_string(&doc.value) {
        Ok(s) => s,
        Err(_) => String::new(),
    }
}

} // verus!
