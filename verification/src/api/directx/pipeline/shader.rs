//! Shaders.

use vstd::prelude::*;
use vstd::slice::slice_to_vec;
use crate::api::directx::device::DirectXDevice;
use crate::api::directx::{windows_result, DirectXDeviceObject, DirectXObject};
use crate::api::traits::{Object, Shader};
use crate::error::Error;
use crate::info::ShaderCode;
use crate::ownership::{ObjectId, ObjectKind, Objects};

verus! {

/// The byte code of a shader, where it lives.
#[derive(Debug)]
enum Code {
    Static(&'static [u8]),
    Dynamic(Vec<u8>),
}

impl Code {
    /// The byte code.
    spec fn bytes(&self) -> Seq<u8> {
        match self {
            Code::Static(code) => code@,
            Code::Dynamic(code) => code@,
        }
    }

    /// A copy of the byte code.
    fn duplicate(&self) -> (copy: Code)
        ensures
            copy.bytes() == self.bytes(),
    {
        match self {
            Code::Static(code) => Code::Static(code),
            Code::Dynamic(code) => Code::Dynamic(code.clone()),
        }
    }
}

/// What a pipeline is told of a shader: DirectX creates nothing for a shader
/// before that.
#[derive(Debug, Copy, Clone, PartialEq, Eq, Structural)]
pub struct DirectXShaderDescription {
    /// The length of the byte code, in bytes.
    pub bytecode_length: usize,
}

/// A DirectX shader.  It keeps its device alive, and the byte code with it.
#[derive(Debug)]
pub struct DirectXShader {
    handle: u64,
    ownership: ObjectId,
    device: ObjectId,
    code: Code,
}

impl Object for DirectXShader {
    closed spec fn native(&self) -> u64 {
        self.handle
    }

    closed spec fn record(&self) -> ObjectId {
        self.ownership
    }

    open spec fn failure(code: i32) -> Error {
        Error::WindowsError(code)
    }

    fn handle(&self) -> (handle: u64) {
        self.handle
    }

    fn ownership(&self) -> (id: ObjectId) {
        self.ownership
    }

    fn share(&self, objects: &mut Objects) -> (twin: Result<Self, Error>)
        ensures
            twin matches Ok(other) ==> other.device_record() == self.device_record()
                && other.bytecode() == self.bytecode(),
    {
        match objects.share(self.ownership) {
            Ok(()) => Ok(
                DirectXShader {
                    handle: self.handle,
                    ownership: self.ownership,
                    device: self.device,
                    code: self.code.duplicate(),
                },
            ),
            Err(e) => Err(e),
        }
    }
}

impl DirectXObject for DirectXShader {
    proof fn windows_error(code: i32) {
    }
}

impl DirectXDeviceObject for DirectXShader {
    closed spec fn device_record(&self) -> ObjectId {
        self.device
    }

    fn device(&self) -> (id: ObjectId) {
        self.device
    }
}

impl DirectXShader {
    /// The byte code of the shader.
    pub closed spec fn bytecode(&self) -> Seq<u8> {
        self.code.bytes()
    }

    /// The byte code of the shader.
    pub fn code(&self) -> (code: &[u8])
        ensures
            code@ == self.bytecode(),
    {
        match &self.code {
            Code::Static(code) => code,
            Code::Dynamic(code) => code.as_slice(),
        }
    }

    /// What a pipeline is told of this shader.
    pub fn to_bytecode(&self) -> (description: DirectXShaderDescription)
        ensures
            description.bytecode_length == self.bytecode().len(),
    {
        DirectXShaderDescription { bytecode_length: self.code().len() }
    }
}

impl Shader for DirectXShader {
    type Context = DirectXDevice;

    type Description = DirectXShaderDescription;

    fn describe(code: ShaderCode) -> (description: DirectXShaderDescription)
        ensures
            description.bytecode_length == code.bytes().len(),
    {
        DirectXShaderDescription { bytecode_length: code.into_bytes().len() }
    }

    fn from_code(
        objects: &mut Objects,
        context: &DirectXDevice,
        code: ShaderCode,
        native: Result<u64, i32>,
    ) -> (shader: Result<Self, Error>)
        ensures
            shader matches Ok(s) ==> s.device_record() == context.record() && s.bytecode()
                == code.bytes(),
    {
        let retains = vec![context.ownership()];
        assert(retains@ =~= seq![context.record()]);
        match objects.enter(ObjectKind::Shader, retains, windows_result(native)) {
            Err(e) => Err(e),
            Ok((handle, ownership)) => {
                let code = match code {
                    ShaderCode::Static(code) => Code::Static(code),
                    ShaderCode::Dynamic(code) => Code::Dynamic(slice_to_vec(code)),
                };
                Ok(DirectXShader { handle, ownership, device: context.ownership(), code })
            },
        }
    }
}

} // verus!
