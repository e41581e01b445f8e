use vstd::prelude::*;

verus! {

/// Failures of the compression search.
#[derive(Clone, Debug, PartialEq, Eq)]
pub enum GifError {
    /// A filesystem read, write or copy failed.
    Io(String),
    /// The animation container could not be decoded.
    Image(String),
    /// The animation holds no frame.
    NoFrames,
    /// The external encoder is not on the search path.
    GifsicleNotFound,
    /// The external encoder exited with a non-zero status; holds its diagnostics.
    GifsicleExecFailed(String),
    /// The input file does not exist.
    InputFileNotFound(String),
    /// No strategy produced a usable candidate.
    NoValidResults,
    /// A scoped temporary file or directory could not be created.
    TempDirFailed(String),
    /// Any other failure, with its description.
    Other(String),
}

/// Human-readable description of a failure.
pub open spec fn description(e: GifError) -> Seq<char> {
    match e {
        GifError::Io(m) => "IO错误: "@ + m@,
        GifError::Image(m) => "图像处理错误: "@ + m@,
        GifError::NoFrames => "GIF没有帧"@,
        GifError::GifsicleNotFound => "未找到gifsicle命令，请确保已安装"@,
        GifError::GifsicleExecFailed(m) => "gifsicle命令执行失败: "@ + m@,
        GifError::InputFileNotFound(m) => "输入文件不存在: "@ + m@,
        GifError::NoValidResults => "没有找到有效的优化结果"@,
        GifError::TempDirFailed(m) => "临时目录创建失败: "@ + m@,
        GifError::Other(m) => m@,
    }
}

impl GifError {
    /// Human-readable description of the failure.
    pub fn describe(&self) -> (r: String)
        ensures
            r@ == description(*self),
    {
        match self {
            GifError::Io(m) => String::from_str("IO错误: ").concat(m.as_str()),
            GifError::Image(m) => String::from_str("图像处理错误: ").concat(m.as_str()),
            GifError::NoFrames => String::from_str("GIF没有帧"),
            GifError::GifsicleNotFound => String::from_str(
                "未找到gifsicle命令，请确保已安装",
            ),
            GifError::GifsicleExecFailed(m) => String::from_str("gifsicle命令执行失败: ").concat(
                m.as_str(),
            ),
            GifError::InputFileNotFound(m) => String::from_str(
                "输入文件不存在: ",
            ).concat(m.as_str()),
            GifError::NoValidResults => String::from_str("没有找到有效的优化结果"),
            GifError::TempDirFailed(m) => String::from_str(
                "临时目录创建失败: ",
            ).concat(m.as_str()),
            GifError::Other(m) => m.clone(),
        }
    }
}

} // verus!
