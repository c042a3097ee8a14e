//! Requests for storages and their volumes.

use crate::auth::HttpMethod;
use crate::client::{ApiRequest, PveClient};
use crate::error::{result_view, ErrorView, PveError};
use crate::params::{opt_decimal_u32, put_opt, PveParams};
use crate::text::{decimal, opt_str, opt_str_view, opt_view};
use crate::transport::{percent_encoded, ApiPath};
use crate::types::backup::VzdumpRequest;
use crate::types::storage::{
    NodeStorageQuery, StorageAllocateDiskRequest, StorageContentQuery, StorageDeleteVolumeRequest,
    StorageUploadRequest,
};
use vstd::prelude::*;

verus! {

/// One part of a multipart upload.
#[derive(Debug)]
pub enum UploadPart {
    /// A text field.
    Text { name: String, value: String },
    /// The content of the file, sent under `file_name`.
    File { name: String, file_name: String },
}

/// A part of an upload with its texts as character sequences.
pub enum UploadPartView {
    Text { name: Seq<char>, value: Seq<char> },
    File { name: Seq<char>, file_name: Seq<char> },
}

impl View for UploadPart {
    type V = UploadPartView;

    open spec fn view(&self) -> UploadPartView {
        match self {
            UploadPart::Text { name, value } => UploadPartView::Text { name: name@, value: value@ },
            UploadPart::File { name, file_name } => UploadPartView::File {
                name: name@,
                file_name: file_name@,
            },
        }
    }
}

/// The views of a list of parts, in order.
pub open spec fn parts_view(parts: Seq<UploadPart>) -> Seq<UploadPartView> {
    Seq::new(parts.len(), |i: int| parts[i]@)
}

/// An upload that is ready to be sent: the request and the parts of its body.
#[derive(Debug)]
pub struct UploadPlan {
    pub request: ApiRequest,
    pub parts: Vec<UploadPart>,
}

/// What is said of a file path without a usable last component.
pub open spec fn msg_upload_path() -> Seq<char> {
    "invalid upload file path"@
}

/// The parts of an upload, in the order in which they are sent: the
/// kind of content, the file, then checksum and checksum algorithm
/// where they are given.
pub open spec fn upload_parts_spec(
    content: Seq<char>,
    file_name: Seq<char>,
    checksum: Option<Seq<char>>,
    checksum_algorithm: Option<Seq<char>>,
) -> Seq<UploadPartView> {
    let parts = seq![
        UploadPartView::Text { name: "content"@, value: content },
        UploadPartView::File { name: "filename"@, file_name },
    ];
    let parts = match checksum {
        Some(c) => parts.push(UploadPartView::Text { name: "checksum"@, value: c }),
        None => parts,
    };
    match checksum_algorithm {
        Some(a) => parts.push(UploadPartView::Text { name: "checksum-algorithm"@, value: a }),
        None => parts,
    }
}

/// The name under which an uploaded file goes, or the error for a path
/// whose last component is not text.
pub fn upload_file_name(file_name: Option<&str>) -> (r: Result<String, PveError>)
    ensures
        match file_name {
            Some(name) => r is Ok && r->Ok_0@ == name@,
            None => r is Err && r->Err_0@ == ErrorView::InvalidArgument(msg_upload_path()),
        },
{
    match file_name {
        Some(name) => Ok(String::from_str(name)),
        None => Err(PveError::InvalidArgument(String::from_str("invalid upload file path"))),
    }
}

/// Lists the parts of an upload in the order in which they are sent.
pub fn upload_parts(
    content: &str,
    file_name: &str,
    checksum: Option<&str>,
    checksum_algorithm: Option<&str>,
) -> (r: Vec<UploadPart>)
    ensures
        parts_view(r@) == upload_parts_spec(
            content@,
            file_name@,
            opt_str_view(checksum),
            opt_str_view(checksum_algorithm),
        ),
{
    let mut parts: Vec<UploadPart> = Vec::new();
    parts.push(
        UploadPart::Text { name: String::from_str("content"), value: String::from_str(content) },
    );
    parts.push(
        UploadPart::File {
            name: String::from_str("filename"),
            file_name: String::from_str(file_name),
        },
    );
    match checksum {
        Some(c) => {
            parts.push(
                UploadPart::Text { name: String::from_str("checksum"), value: String::from_str(c) },
            );
        },
        None => {},
    }
    match checksum_algorithm {
        Some(a) => {
            parts.push(
                UploadPart::Text {
                    name: String::from_str("checksum-algorithm"),
                    value: String::from_str(a),
                },
            );
        },
        None => {},
    }
    proof {
        assert(parts_view(parts@) =~= upload_parts_spec(
            content@,
            file_name@,
            opt_str_view(checksum),
            opt_str_view(checksum_algorithm),
        ));
    }
    parts
}

impl PveClient {
    /// The request `GET /storage`, with `type` as its query.
    pub fn storage_index(&self, storage_type: Option<&str>) -> (r: Result<ApiRequest, PveError>)
        ensures
            result_view(r) == self.request_outcome(
                HttpMethod::Get,
                "/storage"@,
                Some(
                    put_opt(
                        Map::<Seq<char>,
                        Seq<char>>::empty(),
                        "type"@,
                        opt_str_view(storage_type),
                    ),
                ),
                None,
            ),
    {
        let mut query = PveParams::new();
        query.insert_opt("type", storage_type);
        self.send(HttpMethod::Get, "/storage", Some(&query), None)
    }

    /// The request `GET /nodes/{node}/storage`, with `query` as its query.
    pub fn node_storage(&self, node: &str, query: &PveParams) -> (r: Result<ApiRequest, PveError>)
        ensures
            result_view(r) == self.request_outcome(
                HttpMethod::Get,
                "/nodes/"@ + percent_encoded(node@) + "/storage"@,
                Some(query@),
                None,
            ),
    {
        let path = ApiPath::new("/nodes/").segment(node).text("/storage");
        self.send(HttpMethod::Get, path.as_str(), Some(query), None)
    }

    /// The request `GET /nodes/{node}/storage`, with the parameters of `query` as
    /// its query.
    pub fn node_storage_with(
        &self,
        node: &str,
        query: &NodeStorageQuery,
    ) -> (r: Result<ApiRequest, PveError>)
        ensures
            result_view(r) == self.request_outcome(
                HttpMethod::Get,
                "/nodes/"@ + percent_encoded(node@) + "/storage"@,
                Some(query.params()),
                None,
            ),
    {
        let params = query.to_params();
        self.node_storage(node, &params)
    }

    /// The request `GET /nodes/{node}/storage/{storage}/content`, with `query` as
    /// its query.
    pub fn storage_content(
        &self,
        node: &str,
        storage: &str,
        query: &PveParams,
    ) -> (r: Result<ApiRequest, PveError>)
        ensures
            result_view(r) == self.request_outcome(
                HttpMethod::Get,
                "/nodes/"@ + percent_encoded(node@) + "/storage/"@ + percent_encoded(storage@)
                    + "/content"@,
                Some(query@),
                None,
            ),
    {
        let path = ApiPath::new("/nodes/")
            .segment(node)
            .text("/storage/")
            .segment(storage)
            .text("/content");
        self.send(HttpMethod::Get, path.as_str(), Some(query), None)
    }

    /// The request `GET /nodes/{node}/storage/{storage}/content`, with the
    /// parameters of `query` as its query.
    pub fn storage_content_with(
        &self,
        node: &str,
        storage: &str,
        query: &StorageContentQuery,
    ) -> (r: Result<ApiRequest, PveError>)
        ensures
            result_view(r) == self.request_outcome(
                HttpMethod::Get,
                "/nodes/"@ + percent_encoded(node@) + "/storage/"@ + percent_encoded(storage@)
                    + "/content"@,
                Some(query.params()),
                None,
            ),
    {
        let params = query.to_params();
        self.storage_content(node, storage, &params)
    }

    /// The request `POST /nodes/{node}/storage/{storage}/content`, with `params`
    /// and `vmid`, `filename`, `size` as its form.
    pub fn storage_allocate_disk(
        &self,
        node: &str,
        storage: &str,
        vmid: u32,
        filename: &str,
        size: &str,
        params: &PveParams,
    ) -> (r: Result<ApiRequest, PveError>)
        ensures
            result_view(r) == self.request_outcome(
                HttpMethod::Post,
                "/nodes/"@ + percent_encoded(node@) + "/storage/"@ + percent_encoded(storage@)
                    + "/content"@,
                None,
                Some(
                    params@.insert("vmid"@, decimal(vmid as nat)).insert(
                        "filename"@,
                        filename@,
                    ).insert("size"@, size@),
                ),
            ),
    {
        let mut body = params.clone();
        body.insert_number("vmid", vmid as u64);
        body.insert("filename", filename);
        body.insert("size", size);
        let path = ApiPath::new("/nodes/")
            .segment(node)
            .text("/storage/")
            .segment(storage)
            .text("/content");
        self.send(HttpMethod::Post, path.as_str(), None, Some(&body))
    }

    /// The request `POST /nodes/{node}/storage/{storage}/content`, with the
    /// parameters of `request` as its form.
    pub fn storage_allocate_disk_with(
        &self,
        node: &str,
        storage: &str,
        request: &StorageAllocateDiskRequest,
    ) -> (r: Result<ApiRequest, PveError>)
        ensures
            result_view(r) == self.request_outcome(
                HttpMethod::Post,
                "/nodes/"@ + percent_encoded(node@) + "/storage/"@ + percent_encoded(storage@)
                    + "/content"@,
                None,
                Some(request.params()),
            ),
    {
        let body = request.to_params();
        let path = ApiPath::new("/nodes/")
            .segment(node)
            .text("/storage/")
            .segment(storage)
            .text("/content");
        self.send(HttpMethod::Post, path.as_str(), None, Some(&body))
    }

    /// The request `DELETE /nodes/{node}/storage/{storage}/content/{volume}`,
    /// with `delay` as its query.
    pub fn storage_delete_volume(
        &self,
        node: &str,
        storage: &str,
        volume: &str,
        delay: Option<u32>,
    ) -> (r: Result<ApiRequest, PveError>)
        ensures
            result_view(r) == self.request_outcome(
                HttpMethod::Delete,
                "/nodes/"@ + percent_encoded(node@) + "/storage/"@ + percent_encoded(storage@)
                    + "/content/"@ + percent_encoded(volume@),
                Some(
                    put_opt(Map::<Seq<char>, Seq<char>>::empty(), "delay"@, opt_decimal_u32(delay)),
                ),
                None,
            ),
    {
        let path = ApiPath::new("/nodes/")
            .segment(node)
            .text("/storage/")
            .segment(storage)
            .text("/content/")
            .segment(volume);
        let mut query = PveParams::new();
        query.insert_opt_u32("delay", delay);
        self.send(HttpMethod::Delete, path.as_str(), Some(&query), None)
    }

    /// The request `DELETE /nodes/{node}/storage/{storage}/content/{volume}`,
    /// with `delay` as its query.
    pub fn storage_delete_volume_with(
        &self,
        node: &str,
        storage: &str,
        volume: &str,
        request: &StorageDeleteVolumeRequest,
    ) -> (r: Result<ApiRequest, PveError>)
        ensures
            result_view(r) == self.request_outcome(
                HttpMethod::Delete,
                "/nodes/"@ + percent_encoded(node@) + "/storage/"@ + percent_encoded(storage@)
                    + "/content/"@ + percent_encoded(volume@),
                Some(
                    put_opt(
                        Map::<Seq<char>,
                        Seq<char>>::empty(),
                        "delay"@,
                        opt_decimal_u32(request.delay),
                    ),
                ),
                None,
            ),
    {
        self.storage_delete_volume(node, storage, volume, request.delay)
    }

    /// The request `POST /nodes/{node}/vzdump`, with `params` as its form.
    pub fn vzdump_backup(&self, node: &str, params: &PveParams) -> (r: Result<ApiRequest, PveError>)
        ensures
            result_view(r) == self.request_outcome(
                HttpMethod::Post,
                "/nodes/"@ + percent_encoded(node@) + "/vzdump"@,
                None,
                Some(params@),
            ),
    {
        let path = ApiPath::new("/nodes/").segment(node).text("/vzdump");
        self.send(HttpMethod::Post, path.as_str(), None, Some(params))
    }

    /// The request `POST /nodes/{node}/vzdump`, with the parameters of `request`
    /// as its form.
    pub fn vzdump_backup_with(
        &self,
        node: &str,
        request: &VzdumpRequest,
    ) -> (r: Result<ApiRequest, PveError>)
        ensures
            result_view(r) == self.request_outcome(
                HttpMethod::Post,
                "/nodes/"@ + percent_encoded(node@) + "/vzdump"@,
                None,
                Some(request.params()),
            ),
    {
        let params = request.to_params();
        self.vzdump_backup(node, &params)
    }

    /// The request `POST /nodes/{node}/storage/{storage}/upload`, to which the
    /// caller attaches the multipart body.
    pub fn storage_upload_form(&self, node: &str, storage: &str) -> (r: Result<
        ApiRequest,
        PveError,
    >)
        ensures
            result_view(r) == self.request_outcome(
                HttpMethod::Post,
                "/nodes/"@ + percent_encoded(node@) + "/storage/"@ + percent_encoded(storage@)
                    + "/upload"@,
                None,
                None,
            ),
    {
        let path = ApiPath::new("/nodes/")
            .segment(node)
            .text("/storage/")
            .segment(storage)
            .text("/upload");
        self.send(HttpMethod::Post, path.as_str(), None, None)
    }

    /// Plans the upload of a file: the name under which the file goes,
    /// the parts of the multipart body and the request that carries them.
    ///
    /// `file_name` is the last component of the path of the file, or
    /// `None` where the path has none that is text; that case fails
    /// before anything else is looked at.
    pub fn storage_upload_file(
        &self,
        node: &str,
        storage: &str,
        content: &str,
        file_name: Option<&str>,
        checksum: Option<&str>,
        checksum_algorithm: Option<&str>,
    ) -> (r: Result<UploadPlan, PveError>)
        ensures
            match file_name {
                None => r is Err && r->Err_0@ == ErrorView::InvalidArgument(msg_upload_path()),
                Some(name) => match self.request_outcome(
                    HttpMethod::Post,
                    "/nodes/"@ + percent_encoded(node@) + "/storage/"@ + percent_encoded(storage@)
                        + "/upload"@,
                    None,
                    None,
                ) {
                    Err(e) => r is Err && r->Err_0@ == e,
                    Ok(request) => {
                        &&& r is Ok
                        &&& r->Ok_0.request@ == request
                        &&& parts_view(r->Ok_0.parts@) == upload_parts_spec(
                            content@,
                            name@,
                            opt_str_view(checksum),
                            opt_str_view(checksum_algorithm),
                        )
                    },
                },
            },
    {
        let name = match upload_file_name(file_name) {
            Ok(name) => name,
            Err(e) => {
                return Err(e);
            },
        };
        let parts = upload_parts(content, name.as_str(), checksum, checksum_algorithm);
        match self.storage_upload_form(node, storage) {
            Ok(request) => Ok(UploadPlan { request, parts }),
            Err(e) => Err(e),
        }
    }

    /// Plans the upload that `request` describes; `file_name` is the last
    /// component of `request.file_path`.
    pub fn storage_upload_with(
        &self,
        node: &str,
        storage: &str,
        request: &StorageUploadRequest,
        file_name: Option<&str>,
    ) -> (r: Result<UploadPlan, PveError>)
        ensures
            match file_name {
                None => r is Err && r->Err_0@ == ErrorView::InvalidArgument(msg_upload_path()),
                Some(name) => match self.request_outcome(
                    HttpMethod::Post,
                    "/nodes/"@ + percent_encoded(node@) + "/storage/"@ + percent_encoded(storage@)
                        + "/upload"@,
                    None,
                    None,
                ) {
                    Err(e) => r is Err && r->Err_0@ == e,
                    Ok(planned) => {
                        &&& r is Ok
                        &&& r->Ok_0.request@ == planned
                        &&& parts_view(r->Ok_0.parts@) == upload_parts_spec(
                            request.content@,
                            name@,
                            opt_view(request.checksum),
                            opt_view(request.checksum_algorithm),
                        )
                    },
                },
            },
    {
        self.storage_upload_file(
            node,
            storage,
            request.content.as_str(),
            file_name,
            opt_str(&request.checksum),
            opt_str(&request.checksum_algorithm),
        )
    }
}

} // verus!
