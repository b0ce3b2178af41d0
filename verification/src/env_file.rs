//! The settings file that the panel writes on its first start.

use crate::text::concat;
use vstd::prelude::*;

verus! {

/// What stands in the settings file before the secret.
pub open spec fn env_head() -> Seq<char> {
    "# 自动生成的配置文件 - 首次启动创建\nDATABASE_URL=sqlite://data/x-ui.db\n\n# JWT 认证密钥 - 已自动生成强加密随机字符串\nJWT_SECRET="@
}

/// What stands in the settings file after the secret.
pub open spec fn env_tail() -> Seq<char> {
    "\nJWT_EXPIRATION_HOURS=24\n\n# 面板监听配置\nSERVER_HOST=0.0.0.0\nSERVER_PORT=8080\n\n# Xray 核心路径\nXRAY_BIN_PATH=./bin/xray\nXRAY_CONFIG_PATH=./data/xray.json\n\n# 日志输出详细程度\nRUST_LOG=debug,sqlx=warn\n"@
}

/// The settings file for a given secret.
pub open spec fn env_file_text(secret: Seq<char>) -> Seq<char> {
    env_head() + secret + env_tail()
}

/// The settings file of a first start: where the database, the engine and
/// its configuration are, and the secret that tokens are signed with.
pub fn env_file_content(secret: &str) -> (content: String)
    ensures
        content@ == env_file_text(secret@),
{
    let mut content = concat(
        "# 自动生成的配置文件 - 首次启动创建\nDATABASE_URL=sqlite://data/x-ui.db\n\n# JWT 认证密钥 - 已自动生成强加密随机字符串\nJWT_SECRET=",
        secret,
    );
    content.append(
        "\nJWT_EXPIRATION_HOURS=24\n\n# 面板监听配置\nSERVER_HOST=0.0.0.0\nSERVER_PORT=8080\n\n# Xray 核心路径\nXRAY_BIN_PATH=./bin/xray\nXRAY_CONFIG_PATH=./data/xray.json\n\n# 日志输出详细程度\nRUST_LOG=debug,sqlx=warn\n",
    );
    content
}

} // verus!
