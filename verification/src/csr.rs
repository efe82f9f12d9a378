use vstd::prelude::*;

verus! {

/// One entry of a subject alternative name extension.
#[derive(Debug)]
pub enum GeneralNameEntry {
    /// A DNS name, as written in the request.
    Dns(String),
    /// Any other kind of name (e-mail, URI, IP address, ...).
    Other,
}

/// One extension that a PKCS#10 request asks for.
#[derive(Debug)]
pub enum RequestedExtension {
    /// A subject alternative name extension with its entries, in order.
    SubjectAltName(Vec<GeneralNameEntry>),
    /// Any other extension.
    Other,
}

/// The mathematical value of a [`GeneralNameEntry`].
pub enum NameView {
    Dns(Seq<char>),
    Other,
}

/// The mathematical value of a [`RequestedExtension`].
pub enum ExtensionView {
    SubjectAltName(Seq<NameView>),
    Other,
}

impl View for GeneralNameEntry {
    type V = NameView;

    open spec fn view(&self) -> NameView {
        match self {
            GeneralNameEntry::Dns(d) => NameView::Dns(d@),
            GeneralNameEntry::Other => NameView::Other,
        }
    }
}

impl View for RequestedExtension {
    type V = ExtensionView;

    open spec fn view(&self) -> ExtensionView {
        match self {
            RequestedExtension::SubjectAltName(names) => ExtensionView::SubjectAltName(
                names@.map_values(|n: GeneralNameEntry| n@),
            ),
            RequestedExtension::Other => ExtensionView::Other,
        }
    }
}

/// The views of a list of requested extensions.
pub open spec fn extensions_view(v: Seq<RequestedExtension>) -> Seq<ExtensionView> {
    v.map_values(|e: RequestedExtension| e@)
}

/// The views of a list of optional strings.
pub open spec fn optional_strings_view(v: Seq<Option<String>>) -> Seq<Option<Seq<char>>> {
    v.map_values(
        |o: Option<String>|
            match o {
                Some(s) => Some(s@),
                None => None,
            },
    )
}

} // verus!
