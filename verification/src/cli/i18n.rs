//! Messages of the prompt improver, in English and in Chinese.
use vstd::prelude::*;
use crate::text::{concat2, decimal, has_prefix, owned, push_decimal, starts_with};

verus! {

/// The languages of the messages.
#[derive(Debug, Clone, Copy, PartialEq, Eq, Structural)]
pub enum Language {
    English,
    Chinese,
}

/// The value of a locale variable names a Chinese locale: it starts with `zh`.
pub open spec fn names_chinese(v: Option<&str>) -> bool {
    v matches Some(s) && has_prefix(s@, "zh"@)
}

impl Language {
    /// The language of the locale: Chinese when `LANG`, `LANGUAGE` or `LC_ALL`
    /// starts with `zh`, English otherwise. Each argument is the value of that
    /// variable, `None` where it is not set.
    pub fn from_vars(lang: Option<&str>, language: Option<&str>, lc_all: Option<&str>) -> (r: Language)
        ensures
            r == (if names_chinese(lang) || names_chinese(language) || names_chinese(lc_all) {
                Language::Chinese
            } else {
                Language::English
            }),
    {
        if let Some(v) = lang {
            if starts_with(v, "zh") {
                return Language::Chinese;
            }
        }
        if let Some(v) = language {
            if starts_with(v, "zh") {
                return Language::Chinese;
            }
        }
        if let Some(v) = lc_all {
            if starts_with(v, "zh") {
                return Language::Chinese;
            }
        }
        Language::English
    }
}

/// The messages, in one language.
pub struct I18n {
    pub lang: Language,
}

/// `pre`, the decimal digits of `n`, then `post`.
fn with_number(pre: &str, n: usize, post: &str) -> (r: String)
    ensures
        r@ == pre@ + decimal(n as nat) + post@,
{
    let mut r = owned(pre);
    push_decimal(&mut r, n as u64);
    r.append(post);
    r
}

/// `pre` followed by the decimal digits of `n`.
fn number_after(pre: &str, n: usize) -> (r: String)
    ensures
        r@ == pre@ + decimal(n as nat),
{
    let mut r = owned(pre);
    push_decimal(&mut r, n as u64);
    r
}

impl I18n {
    /// The messages in `lang`.
    pub fn new(lang: Language) -> (r: Self)
        ensures
            r.lang == lang,
    {
        I18n { lang }
    }


    /// The title of the header.
    pub fn header_title(&self) -> (r: &'static str)
        ensures
            r@ == match self.lang {
                Language::English => "🚀 Gemini Prompt Improver"@,
                Language::Chinese => "🚀 Gemini 提示词优化器"@,
            },
    {
        match self.lang {
            Language::English => "🚀 Gemini Prompt Improver",
            Language::Chinese => "🚀 Gemini 提示词优化器",
        }
    }

    /// The subtitle of the header.
    pub fn header_subtitle(&self) -> (r: &'static str)
        ensures
            r@ == match self.lang {
                Language::English => "Transform your prompts into professional ones"@,
                Language::Chinese => "将你的提示词转化为专业提示词"@,
            },
    {
        match self.lang {
            Language::English => "Transform your prompts into professional ones",
            Language::Chinese => "将你的提示词转化为专业提示词",
        }
    }

    /// The request to type a draft prompt.
    pub fn enter_prompt(&self) -> (r: &'static str)
        ensures
            r@ == match self.lang {
                Language::English => "📝 Enter your draft prompt (press Enter twice to submit):"@,
                Language::Chinese => "📝 请输入你的草稿提示词（按两次回车提交）："@,
            },
    {
        match self.lang {
            Language::English => "📝 Enter your draft prompt (press Enter twice to submit):",
            Language::Chinese => "📝 请输入你的草稿提示词（按两次回车提交）：",
        }
    }

    /// The client could not be set up.
    pub fn error_init_client(&self) -> (r: &'static str)
        ensures
            r@ == match self.lang {
                Language::English => "❌ Error: Failed to initialize Gemini client."@,
                Language::Chinese => "❌ 错误：初始化 Gemini 客户端失败。"@,
            },
    {
        match self.lang {
            Language::English => "❌ Error: Failed to initialize Gemini client.",
            Language::Chinese => "❌ 错误：初始化 Gemini 客户端失败。",
        }
    }

    /// The hint to set the API key.
    pub fn error_set_api_key(&self) -> (r: &'static str)
        ensures
            r@ == match self.lang {
                Language::English => "   Make sure GEMINI_API_KEY environment variable is set."@,
                Language::Chinese => "   请确保已设置 GEMINI_API_KEY 环境变量。"@,
            },
    {
        match self.lang {
            Language::English => "   Make sure GEMINI_API_KEY environment variable is set.",
            Language::Chinese => "   请确保已设置 GEMINI_API_KEY 环境变量。",
        }
    }

    /// No prompt was typed.
    pub fn error_no_prompt(&self) -> (r: &'static str)
        ensures
            r@ == match self.lang {
                Language::English => "❌ Error: No prompt provided."@,
                Language::Chinese => "❌ 错误：未提供提示词。"@,
            },
    {
        match self.lang {
            Language::English => "❌ Error: No prompt provided.",
            Language::Chinese => "❌ 错误：未提供提示词。",
        }
    }

    /// The batch job could not be created.
    pub fn error_batch_create(&self) -> (r: &'static str)
        ensures
            r@ == match self.lang {
                Language::English => "❌ Error: Failed to create batch job"@,
                Language::Chinese => "❌ 错误：创建批处理任务失败"@,
            },
    {
        match self.lang {
            Language::English => "❌ Error: Failed to create batch job",
            Language::Chinese => "❌ 错误：创建批处理任务失败",
        }
    }

    /// The batch job failed.
    pub fn error_batch_failed(&self) -> (r: &'static str)
        ensures
            r@ == match self.lang {
                Language::English => "❌ Error: Batch job failed"@,
                Language::Chinese => "❌ 错误：批处理任务失败"@,
            },
    {
        match self.lang {
            Language::English => "❌ Error: Batch job failed",
            Language::Chinese => "❌ 错误：批处理任务失败",
        }
    }

    /// The batch job has no responses.
    pub fn error_no_responses(&self) -> (r: &'static str)
        ensures
            r@ == match self.lang {
                Language::English => "❌ Error: No responses in batch job"@,
                Language::Chinese => "❌ 错误：批处理任务无响应"@,
            },
    {
        match self.lang {
            Language::English => "❌ Error: No responses in batch job",
            Language::Chinese => "❌ 错误：批处理任务无响应",
        }
    }

    /// The prompt is being improved in `count` versions.
    pub fn improving_prompt_with_count(&self, count: usize) -> (r: String)
        ensures
            r@ == match self.lang {
                Language::English => "⏳ Improving your prompt with Gemini 3 Pro (Batch API - "@ + decimal(count as nat) + " versions)..."@,
                Language::Chinese => "⏳ 正在使用 Gemini 3 Pro 优化你的提示词（Batch API - "@ + decimal(count as nat) + "个版本）..."@,
            },
    {
        match self.lang {
            Language::English => with_number("⏳ Improving your prompt with Gemini 3 Pro (Batch API - ", count, " versions)..."),
            Language::Chinese => with_number("⏳ 正在使用 Gemini 3 Pro 优化你的提示词（Batch API - ", count, "个版本）..."),
        }
    }

    /// The note that the Batch API costs less.
    pub fn batch_api_note(&self) -> (r: &'static str)
        ensures
            r@ == match self.lang {
                Language::English => "   💡 Using Batch API: 50% cheaper than real-time requests!"@,
                Language::Chinese => "   💡 使用 Batch API：比实时请求便宜 50%！"@,
            },
    {
        match self.lang {
            Language::English => "   💡 Using Batch API: 50% cheaper than real-time requests!",
            Language::Chinese => "   💡 使用 Batch API：比实时请求便宜 50%！",
        }
    }

    /// The proxy in use.
    pub fn using_proxy(&self, proxy: &str) -> (r: String)
        ensures
            r@ == match self.lang {
                Language::English => "🌐 Using proxy: "@ + proxy@,
                Language::Chinese => "🌐 使用代理："@ + proxy@,
            },
    {
        match self.lang {
            Language::English => concat2("🌐 Using proxy: ", proxy),
            Language::Chinese => concat2("🌐 使用代理：", proxy),
        }
    }

    /// A batch job of `count` requests is being created.
    pub fn creating_batch_with_count(&self, count: usize) -> (r: String)
        ensures
            r@ == match self.lang {
                Language::English => "📤 Creating batch job with "@ + decimal(count as nat) + " requests..."@,
                Language::Chinese => "📤 正在创建包含 "@ + decimal(count as nat) + " 个请求的批处理任务..."@,
            },
    {
        match self.lang {
            Language::English => with_number("📤 Creating batch job with ", count, " requests..."),
            Language::Chinese => with_number("📤 正在创建包含 ", count, " 个请求的批处理任务..."),
        }
    }

    /// The batch job `name` was created.
    pub fn batch_created(&self, name: &str) -> (r: String)
        ensures
            r@ == match self.lang {
                Language::English => "✅ Batch job created: "@ + name@,
                Language::Chinese => "✅ 批处理任务已创建: "@ + name@,
            },
    {
        match self.lang {
            Language::English => concat2("✅ Batch job created: ", name),
            Language::Chinese => concat2("✅ 批处理任务已创建: ", name),
        }
    }

    /// The client waits for the batch job.
    pub fn waiting_batch(&self) -> (r: &'static str)
        ensures
            r@ == match self.lang {
                Language::English => "⏳ Waiting for batch job to complete..."@,
                Language::Chinese => "⏳ 等待批处理任务完成..."@,
            },
    {
        match self.lang {
            Language::English => "⏳ Waiting for batch job to complete...",
            Language::Chinese => "⏳ 等待批处理任务完成...",
        }
    }

    /// The batch job completed.
    pub fn batch_completed(&self) -> (r: &'static str)
        ensures
            r@ == match self.lang {
                Language::English => "📥 Batch job completed!"@,
                Language::Chinese => "📥 批处理任务已完成！"@,
            },
    {
        match self.lang {
            Language::English => "📥 Batch job completed!",
            Language::Chinese => "📥 批处理任务已完成！",
        }
    }

    /// Version `version` was saved to `file`.
    pub fn version_saved(&self, version: usize, file: &str) -> (r: String)
        ensures
            r@ == match self.lang {
                Language::English => "💾 Version "@ + decimal(version as nat) + " saved to: "@ + file@,
                Language::Chinese => "💾 版本 "@ + decimal(version as nat) + " 已保存到: "@ + file@,
            },
    {
        match self.lang {
            Language::English => {
                let mut r = with_number("💾 Version ", version, " saved to: ");
                r.append(file);
                r
            },
            Language::Chinese => {
                let mut r = with_number("💾 版本 ", version, " 已保存到: ");
                r.append(file);
                r
            },
        }
    }

    /// `count` versions were generated.
    pub fn generated_versions_with_count(&self, count: usize) -> (r: String)
        ensures
            r@ == match self.lang {
                Language::English => "📄 Generated "@ + decimal(count as nat) + " versions of your improved prompt:"@,
                Language::Chinese => "📄 已生成 "@ + decimal(count as nat) + " 个优化版本："@,
            },
    {
        match self.lang {
            Language::English => with_number("📄 Generated ", count, " versions of your improved prompt:"),
            Language::Chinese => with_number("📄 已生成 ", count, " 个优化版本："),
        }
    }

    /// `count` versions are being merged.
    pub fn merging_prompts_with_count(&self, count: usize) -> (r: String)
        ensures
            r@ == match self.lang {
                Language::English => "🔀 Merging "@ + decimal(count as nat) + " versions into a Master Prompt..."@,
                Language::Chinese => "🔀 正在将 "@ + decimal(count as nat) + " 个版本合并为大师级提示词..."@,
            },
    {
        match self.lang {
            Language::English => with_number("🔀 Merging ", count, " versions into a Master Prompt..."),
            Language::Chinese => with_number("🔀 正在将 ", count, " 个版本合并为大师级提示词..."),
        }
    }

    /// The master prompt was saved.
    pub fn master_saved(&self) -> (r: &'static str)
        ensures
            r@ == match self.lang {
                Language::English => "✅ Master Prompt saved to: master_prompt.md"@,
                Language::Chinese => "✅ 大师级提示词已保存到: master_prompt.md"@,
            },
    {
        match self.lang {
            Language::English => "✅ Master Prompt saved to: master_prompt.md",
            Language::Chinese => "✅ 大师级提示词已保存到: master_prompt.md",
        }
    }

    /// The versions could not be merged.
    pub fn merge_failed(&self) -> (r: &'static str)
        ensures
            r@ == match self.lang {
                Language::English => "⚠️  Warning: Failed to merge prompts"@,
                Language::Chinese => "⚠️  警告：合并提示词失败"@,
            },
    {
        match self.lang {
            Language::English => "⚠️  Warning: Failed to merge prompts",
            Language::Chinese => "⚠️  警告：合并提示词失败",
        }
    }

    /// The hint to merge by hand.
    pub fn manual_merge_hint(&self) -> (r: &'static str)
        ensures
            r@ == match self.lang {
                Language::English => "   You can manually merge the versions."@,
                Language::Chinese => "   你可以手动合并这些版本。"@,
            },
    {
        match self.lang {
            Language::English => "   You can manually merge the versions.",
            Language::Chinese => "   你可以手动合并这些版本。",
        }
    }

    /// The heading of the final output.
    pub fn final_output(&self) -> (r: &'static str)
        ensures
            r@ == match self.lang {
                Language::English => "🏆 Final Output:"@,
                Language::Chinese => "🏆 最终输出:"@,
            },
    {
        match self.lang {
            Language::English => "🏆 Final Output:",
            Language::Chinese => "🏆 最终输出:",
        }
    }

    /// The label of version `version`.
    pub fn version_label(&self, version: usize) -> (r: String)
        ensures
            r@ == match self.lang {
                Language::English => "Version "@ + decimal(version as nat),
                Language::Chinese => "版本 "@ + decimal(version as nat),
            },
    {
        match self.lang {
            Language::English => number_after("Version ", version),
            Language::Chinese => number_after("版本 ", version),
        }
    }

    /// The label of the merged prompt.
    pub fn merged_optimized(&self) -> (r: &'static str)
        ensures
            r@ == match self.lang {
                Language::English => "✨ Merged & Optimized"@,
                Language::Chinese => "✨ 合并优化版"@,
            },
    {
        match self.lang {
            Language::English => "✨ Merged & Optimized",
            Language::Chinese => "✨ 合并优化版",
        }
    }

    /// The heading of token usage.
    pub fn token_usage_header(&self) -> (r: &'static str)
        ensures
            r@ == match self.lang {
                Language::English => "📊 Total Token Usage (3 batch + 1 merge request):"@,
                Language::Chinese => "📊 总 Token 使用量（3 个批处理 + 1 个合并请求）:"@,
            },
    {
        match self.lang {
            Language::English => "📊 Total Token Usage (3 batch + 1 merge request):",
            Language::Chinese => "📊 总 Token 使用量（3 个批处理 + 1 个合并请求）:",
        }
    }

    /// The label of input tokens.
    pub fn input_tokens(&self) -> (r: &'static str)
        ensures
            r@ == match self.lang {
                Language::English => "   Input:"@,
                Language::Chinese => "   输入:"@,
            },
    {
        match self.lang {
            Language::English => "   Input:",
            Language::Chinese => "   输入:",
        }
    }

    /// The label of output tokens.
    pub fn output_tokens(&self) -> (r: &'static str)
        ensures
            r@ == match self.lang {
                Language::English => "   Output:"@,
                Language::Chinese => "   输出:"@,
            },
    {
        match self.lang {
            Language::English => "   Output:",
            Language::Chinese => "   输出:",
        }
    }

    /// The label of thinking tokens.
    pub fn thinking_tokens(&self) -> (r: &'static str)
        ensures
            r@ == match self.lang {
                Language::English => "   Thinking:"@,
                Language::Chinese => "   思考："@,
            },
    {
        match self.lang {
            Language::English => "   Thinking:",
            Language::Chinese => "   思考：",
        }
    }

    /// The label of all tokens.
    pub fn total_tokens(&self) -> (r: &'static str)
        ensures
            r@ == match self.lang {
                Language::English => "   Total:"@,
                Language::Chinese => "   总计:"@,
            },
    {
        match self.lang {
            Language::English => "   Total:",
            Language::Chinese => "   总计:",
        }
    }

    /// The heading of the estimated cost.
    pub fn cost_header(&self) -> (r: &'static str)
        ensures
            r@ == match self.lang {
                Language::English => "💰 Estimated Cost (Batch + Real-time API):"@,
                Language::Chinese => "💰 预估成本（Batch + 实时 API）:"@,
            },
    {
        match self.lang {
            Language::English => "💰 Estimated Cost (Batch + Real-time API):",
            Language::Chinese => "💰 预估成本（Batch + 实时 API）:",
        }
    }
}

} // verus!
